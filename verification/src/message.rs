use vstd::prelude::*;
use vstd::string::StringExecFns;
use crate::device::{Fatal, Operation};

verus! {

/// The character that stands for a digit.
pub open spec fn digit(d: nat) -> char {
    if d == 0 {
        '0'
    } else if d == 1 {
        '1'
    } else if d == 2 {
        '2'
    } else if d == 3 {
        '3'
    } else if d == 4 {
        '4'
    } else if d == 5 {
        '5'
    } else if d == 6 {
        '6'
    } else if d == 7 {
        '7'
    } else if d == 8 {
        '8'
    } else {
        '9'
    }
}

/// A number in decimal digits, the most significant first, without leading
/// zeros.
pub open spec fn decimal(n: nat) -> Seq<char>
    decreases n,
{
    if n < 10 {
        seq![digit(n)]
    } else {
        decimal(n / 10).push(digit(n % 10))
    }
}

/// What has failed when the call `operation` has failed, in words.
pub open spec fn phrase(operation: Operation) -> Seq<char> {
    match operation {
        Operation::WaitIdle => "failed to wait for the device to fall idle"@,
        Operation::QueryCapabilities => "failed to get surface capabilities"@,
        Operation::CreateSwapchain => "failed to create swapchain"@,
        Operation::GetSwapchainImages => "failed to get swapchain images"@,
        Operation::DestroySwapchain => "failed to destroy swapchain"@,
        Operation::CreateImageView => "failed to create image view"@,
        Operation::DestroyImageView => "failed to destroy image view"@,
        Operation::CreateFramebuffer => "failed to create framebuffer"@,
        Operation::DestroyFramebuffer => "failed to destroy framebuffer"@,
        Operation::CreateFence => "failed to create fence"@,
        Operation::DestroyFence => "failed to destroy fence"@,
        Operation::CreateSemaphore => "failed to create semaphore"@,
        Operation::DestroySemaphore => "failed to destroy semaphore"@,
        Operation::CreateDescriptorPool => "failed to create descriptor pool"@,
        Operation::DestroyDescriptorPool => "failed to destroy descriptor pool"@,
        Operation::CreateCommandPool => "failed to create command pool"@,
        Operation::DestroyCommandPool => "failed to destroy command pool"@,
        Operation::AllocateCommandBuffers => "failed to allocate command buffers"@,
        Operation::WaitForFence => "failed to wait for resource fence"@,
        Operation::ResetFence => "failed to reset resource fence"@,
        Operation::ResetCommandBuffer => "failed to reset command buffer"@,
        Operation::AcquireNextImage => "failed to acquire next image"@,
        Operation::BeginCommandBuffer => "failed to begin command buffer"@,
        Operation::BeginRenderPass => "failed to begin render pass"@,
        Operation::SetViewport => "failed to set viewport"@,
        Operation::SetScissor => "failed to set scissor"@,
        Operation::EndRenderPass => "failed to end render pass"@,
        Operation::EndCommandBuffer => "failed to end command buffer"@,
        Operation::Submit => "failed to submit graphics command buffer"@,
        Operation::Present => "failed to present"@,
    }
}

/// Whether a failure of the call `operation` is told with the position that
/// the call was for: the frame slot of a fence, the place of a view, a
/// framebuffer, a fence, a semaphore or a pool in its batch.
pub open spec fn positional(operation: Operation) -> bool {
    operation == Operation::CreateImageView || operation == Operation::CreateFramebuffer
        || operation == Operation::CreateFence || operation == Operation::CreateSemaphore
        || operation == Operation::CreateDescriptorPool || operation == Operation::WaitForFence
        || operation == Operation::ResetFence
}

/// The message of a fatal failure.
pub open spec fn text(fatal: Fatal) -> Seq<char> {
    match fatal {
        Fatal::Device { operation, index, code } => if positional(operation) {
            phrase(operation) + " "@ + decimal(index as nat)
        } else {
            phrase(operation)
        },
        Fatal::UnexpectedReply { operation } => phrase(operation) + ": unexpected reply"@,
        Fatal::InvalidCapabilities => "surface capabilities are invalid"@,
        Fatal::UnknownImage { image_index } => {
            "acquired an image that the swapchain does not have: "@ + decimal(image_index as nat)
        },
        Fatal::WrongBufferCount { count } => "wrong number of command buffers allocated: "@
            + decimal(count as nat),
        Fatal::Busy => "another operation is under way"@,
        Fatal::NothingPending => "no call is awaiting a reply"@,
        Fatal::NotReady => "swapchain, framebuffers or frame slots are missing"@,
        Fatal::Halted => "stopped by an earlier fatal failure or by its release"@,
    }
}

fn digit_str(d: usize) -> (r: &'static str)
    requires
        d < 10,
    ensures
        r@ == seq![digit(d as nat)],
{
    proof {
        reveal_strlit("0");
        reveal_strlit("1");
        reveal_strlit("2");
        reveal_strlit("3");
        reveal_strlit("4");
        reveal_strlit("5");
        reveal_strlit("6");
        reveal_strlit("7");
        reveal_strlit("8");
        reveal_strlit("9");
    }
    let r = if d == 0 {
        "0"
    } else if d == 1 {
        "1"
    } else if d == 2 {
        "2"
    } else if d == 3 {
        "3"
    } else if d == 4 {
        "4"
    } else if d == 5 {
        "5"
    } else if d == 6 {
        "6"
    } else if d == 7 {
        "7"
    } else if d == 8 {
        "8"
    } else {
        "9"
    };
    r
}

/// Writes a number in decimal digits.
pub fn decimal_string(n: usize) -> (r: String)
    ensures
        r@ == decimal(n as nat),
    decreases n,
{
    if n < 10 {
        String::from_str(digit_str(n))
    } else {
        let mut text = decimal_string(n / 10);
        text.append(digit_str(n % 10));
        proof {
        }
        text
    }
}

fn phrase_str(operation: Operation) -> (r: &'static str)
    ensures
        r@ == phrase(operation),
{
    match operation {
        Operation::WaitIdle => "failed to wait for the device to fall idle",
        Operation::QueryCapabilities => "failed to get surface capabilities",
        Operation::CreateSwapchain => "failed to create swapchain",
        Operation::GetSwapchainImages => "failed to get swapchain images",
        Operation::DestroySwapchain => "failed to destroy swapchain",
        Operation::CreateImageView => "failed to create image view",
        Operation::DestroyImageView => "failed to destroy image view",
        Operation::CreateFramebuffer => "failed to create framebuffer",
        Operation::DestroyFramebuffer => "failed to destroy framebuffer",
        Operation::CreateFence => "failed to create fence",
        Operation::DestroyFence => "failed to destroy fence",
        Operation::CreateSemaphore => "failed to create semaphore",
        Operation::DestroySemaphore => "failed to destroy semaphore",
        Operation::CreateDescriptorPool => "failed to create descriptor pool",
        Operation::DestroyDescriptorPool => "failed to destroy descriptor pool",
        Operation::CreateCommandPool => "failed to create command pool",
        Operation::DestroyCommandPool => "failed to destroy command pool",
        Operation::AllocateCommandBuffers => "failed to allocate command buffers",
        Operation::WaitForFence => "failed to wait for resource fence",
        Operation::ResetFence => "failed to reset resource fence",
        Operation::ResetCommandBuffer => "failed to reset command buffer",
        Operation::AcquireNextImage => "failed to acquire next image",
        Operation::BeginCommandBuffer => "failed to begin command buffer",
        Operation::BeginRenderPass => "failed to begin render pass",
        Operation::SetViewport => "failed to set viewport",
        Operation::SetScissor => "failed to set scissor",
        Operation::EndRenderPass => "failed to end render pass",
        Operation::EndCommandBuffer => "failed to end command buffer",
        Operation::Submit => "failed to submit graphics command buffer",
        Operation::Present => "failed to present",
    }
}

fn is_positional(operation: Operation) -> (r: bool)
    ensures
        r == positional(operation),
{
    match operation {
        Operation::CreateImageView
        | Operation::CreateFramebuffer
        | Operation::CreateFence
        | Operation::CreateSemaphore
        | Operation::CreateDescriptorPool
        | Operation::WaitForFence
        | Operation::ResetFence => true,
        _ => false,
    }
}

fn numbered(prefix: &str, n: usize) -> (r: String)
    ensures
        r@ == prefix@ + decimal(n as nat),
{
    let mut message = String::from_str(prefix);
    let number = decimal_string(n);
    message.append(number.as_str());
    message
}

impl Fatal {
    /// The failure in words, for a log or for the user: which call has
    /// failed, and for which slot or position where the call is for one.
    pub fn message(&self) -> (r: String)
        ensures
            r@ == text(*self),
    {
        match *self {
            Fatal::Device { operation, index, code } => {
                if is_positional(operation) {
                    let mut message = String::from_str(phrase_str(operation));
                    message.append(" ");
                    let number = decimal_string(index);
                    message.append(number.as_str());
                    message
                } else {
                    String::from_str(phrase_str(operation))
                }
            },
            Fatal::UnexpectedReply { operation } => {
                let mut message = String::from_str(phrase_str(operation));
                message.append(": unexpected reply");
                message
            },
            Fatal::InvalidCapabilities => String::from_str("surface capabilities are invalid"),
            Fatal::UnknownImage { image_index } => numbered(
                "acquired an image that the swapchain does not have: ",
                image_index as usize,
            ),
            Fatal::WrongBufferCount { count } => numbered(
                "wrong number of command buffers allocated: ",
                count,
            ),
            Fatal::Busy => String::from_str("another operation is under way"),
            Fatal::NothingPending => String::from_str("no call is awaiting a reply"),
            Fatal::NotReady => String::from_str(
                "swapchain, framebuffers or frame slots are missing",
            ),
            Fatal::Halted => String::from_str("stopped by an earlier fatal failure or by its release"),
        }
    }
}

} // verus!

//! The patch as a sequence of file operations.
//!
//! The patcher decides; a driver acts. Each [`Step`] but the last names one
//! operation on the image file. The driver performs it, reports how it went
//! in a [`Reply`], and [`advance`] answers with the next step. The file is
//! never seen here, so the same decisions serve a file on disk and, through
//! [`patch_image`], an image held in memory.

use vstd::prelude::*;
use crate::flags::{apply_mask, patched_flags};
use crate::image::{
    has_magic, is_magic, magic, patch_result, PatchError, FLAGS_OFFSET, MAGIC_LEN,
};

verus! {

/// What the driver is to do next.
#[derive(Clone, Copy, Debug, PartialEq, Eq, Structural)]
pub enum Step {
    /// Open the file for reading and writing.
    Open,
    /// Read exactly [`MAGIC_LEN`] bytes from the start of the file.
    ReadMagic,
    /// Seek to [`FLAGS_OFFSET`] and read exactly one byte.
    ReadFlags,
    /// Seek to [`FLAGS_OFFSET`] and write this byte.
    WriteFlags(u8),
    /// Nothing more: the flags byte has been written.
    Patched,
    /// Nothing more: the patch has failed.
    Failed(PatchError),
}

impl Step {
    /// Whether the patch has ended, well or badly.
    pub open spec fn is_final(&self) -> bool {
        self is Patched || self is Failed
    }

    /// How the patch ended, once it has.
    pub open spec fn outcome_spec(&self) -> Option<Result<(), PatchError>> {
        match self {
            Step::Patched => Some(Ok(())),
            Step::Failed(error) => Some(Err(*error)),
            _ => None,
        }
    }

    /// How the patch ended: `None` while there is still something to do.
    pub fn outcome(&self) -> (outcome: Option<Result<(), PatchError>>)
        ensures
            outcome == self.outcome_spec(),
    {
        match self {
            Step::Patched => Some(Ok(())),
            Step::Failed(error) => Some(Err(*error)),
            _ => None,
        }
    }
}

/// How an operation went.
#[derive(Clone, Debug, PartialEq, Eq)]
pub enum Reply {
    /// The operation succeeded and yields no data.
    Completed,
    /// The bytes that a read returned.
    Bytes(Vec<u8>),
    /// The operation failed, in whichever part.
    Failed,
}

/// The mathematical content of a [`Reply`].
pub enum ReplyView {
    Completed,
    Bytes(Seq<u8>),
    Failed,
}

impl View for Reply {
    type V = ReplyView;

    open spec fn view(&self) -> ReplyView {
        match self {
            Reply::Completed => ReplyView::Completed,
            Reply::Bytes(bytes) => ReplyView::Bytes(bytes@),
            Reply::Failed => ReplyView::Failed,
        }
    }
}

/// The step that follows `step` once the driver has answered with `reply`.
///
/// A reply that does not fit the operation counts as its failure. A failed
/// open is an access error, a missing or wrong signature an invalid image,
/// and any failure behind that a failed patch. Once done, the patcher stays
/// done.
pub open spec fn next_step(step: Step, mask: u8, reply: ReplyView) -> Step {
    match step {
        Step::Open => if reply is Completed {
            Step::ReadMagic
        } else {
            Step::Failed(PatchError::Access)
        },
        Step::ReadMagic => if reply == ReplyView::Bytes(magic()) {
            Step::ReadFlags
        } else {
            Step::Failed(PatchError::InvalidImage)
        },
        Step::ReadFlags => match reply {
            ReplyView::Bytes(bytes) if bytes.len() == 1 => Step::WriteFlags(
                patched_flags(bytes[0], mask),
            ),
            _ => Step::Failed(PatchError::PatchFailed),
        },
        Step::WriteFlags(_) => if reply is Completed {
            Step::Patched
        } else {
            Step::Failed(PatchError::PatchFailed)
        },
        Step::Patched => Step::Patched,
        Step::Failed(error) => Step::Failed(error),
    }
}

/// The step a patch begins with.
pub fn start() -> (step: Step)
    ensures
        step == Step::Open,
{
    Step::Open
}

/// Decides the next step from the driver's reply to the current one.
pub fn advance(step: Step, mask: u8, reply: &Reply) -> (next: Step)
    ensures
        next == next_step(step, mask, reply@),
{
    match step {
        Step::Open => match reply {
            Reply::Completed => Step::ReadMagic,
            _ => Step::Failed(PatchError::Access),
        },
        Step::ReadMagic => match reply {
            Reply::Bytes(bytes) => if is_magic(bytes.as_slice()) {
                Step::ReadFlags
            } else {
                Step::Failed(PatchError::InvalidImage)
            },
            _ => Step::Failed(PatchError::InvalidImage),
        },
        Step::ReadFlags => match reply {
            Reply::Bytes(bytes) => if bytes.len() == 1 {
                Step::WriteFlags(apply_mask(bytes[0], mask))
            } else {
                Step::Failed(PatchError::PatchFailed)
            },
            _ => Step::Failed(PatchError::PatchFailed),
        },
        Step::WriteFlags(_) => match reply {
            Reply::Completed => Step::Patched,
            _ => Step::Failed(PatchError::PatchFailed),
        },
        Step::Patched => Step::Patched,
        Step::Failed(error) => Step::Failed(error),
    }
}

/// The step reached from `step` once the driver has answered with each of
/// `replies` in turn.
pub open spec fn step_after(step: Step, mask: u8, replies: Seq<ReplyView>) -> Step
    decreases replies.len(),
{
    if replies.len() == 0 {
        step
    } else {
        step_after(next_step(step, mask, replies[0]), mask, replies.drop_first())
    }
}

/// Once a patch has ended, no reply changes how it ended.
pub proof fn lemma_final_step_stays(step: Step, mask: u8, replies: Seq<ReplyView>)
    requires
        step.is_final(),
    ensures
        step_after(step, mask, replies) == step,
    decreases replies.len(),
{
    if replies.len() > 0 {
        lemma_final_step_stays(step, mask, replies.drop_first());
    }
}

/// A file whose first bytes cannot be read, or are not the magic signature,
/// is rejected as invalid at once, and whatever is reported afterwards the
/// patcher asks for no write.
pub proof fn lemma_bad_magic_ends_patch(mask: u8, replies: Seq<ReplyView>)
    requires
        replies.len() > 0,
        replies[0] != ReplyView::Bytes(magic()),
    ensures
        step_after(Step::ReadMagic, mask, replies) == Step::Failed(PatchError::InvalidImage),
{
    lemma_final_step_stays(Step::Failed(PatchError::InvalidImage), mask, replies.drop_first());
}

/// The patcher asks for a write at one point only: the file was opened, its
/// first bytes were the magic signature, and one byte was read at the flags
/// offset. The byte to write is the byte read with the mask's bits set.
pub proof fn lemma_write_follows_checks(mask: u8, replies: Seq<ReplyView>)
    requires
        step_after(Step::Open, mask, replies) is WriteFlags,
    ensures
        replies.len() == 3,
        replies[0] is Completed,
        replies[1] == ReplyView::Bytes(magic()),
        replies[2] matches ReplyView::Bytes(bytes) && bytes.len() == 1 && step_after(
            Step::Open,
            mask,
            replies,
        ) == Step::WriteFlags(patched_flags(bytes[0], mask)),
{
    reveal_with_fuel(step_after, 4);
    let opened = next_step(Step::Open, mask, replies[0]);
    let after_open = replies.drop_first();
    if replies.len() == 0 {
    } else if opened.is_final() {
        lemma_final_step_stays(opened, mask, after_open);
    } else if after_open.len() > 0 {
        let checked = next_step(opened, mask, after_open[0]);
        let after_magic = after_open.drop_first();
        if checked.is_final() {
            lemma_final_step_stays(checked, mask, after_magic);
        } else if after_magic.len() > 0 {
            let read = next_step(checked, mask, after_magic[0]);
            let after_read = after_magic.drop_first();
            if read.is_final() {
                lemma_final_step_stays(read, mask, after_read);
            } else if after_read.len() > 0 {
                let written = next_step(read, mask, after_read[0]);
                lemma_final_step_stays(written, mask, after_read.drop_first());
            } else {
                assert(replies[1] == after_open[0]);
                assert(replies[2] == after_magic[0]);
            }
        }
    }
}

/// What an image held in memory holds after an operation, and what it
/// answers to it.
///
/// Opening always succeeds. A read or write succeeds if the bytes it touches
/// lie inside the image; a write never makes the image longer. A final step
/// asks for nothing, and nothing happens.
pub open spec fn served(image: Seq<u8>, step: Step) -> (Seq<u8>, ReplyView) {
    match step {
        Step::Open => (image, ReplyView::Completed),
        Step::ReadMagic => if image.len() >= MAGIC_LEN {
            (image, ReplyView::Bytes(image.subrange(0, MAGIC_LEN as int)))
        } else {
            (image, ReplyView::Failed)
        },
        Step::ReadFlags => if image.len() > FLAGS_OFFSET {
            (image, ReplyView::Bytes(image.subrange(FLAGS_OFFSET as int, FLAGS_OFFSET + 1)))
        } else {
            (image, ReplyView::Failed)
        },
        Step::WriteFlags(flags) => if image.len() > FLAGS_OFFSET {
            (image.update(FLAGS_OFFSET as int, flags), ReplyView::Completed)
        } else {
            (image, ReplyView::Failed)
        },
        Step::Patched => (image, ReplyView::Completed),
        Step::Failed(_) => (image, ReplyView::Completed),
    }
}

/// Copies `len` bytes of `image`, starting at `from`.
fn copy_bytes(image: &Vec<u8>, from: usize, len: usize) -> (bytes: Vec<u8>)
    requires
        from + len <= image.len(),
    ensures
        bytes@ == image@.subrange(from as int, from + len),
{
    let mut bytes: Vec<u8> = Vec::new();
    let mut i: usize = 0;
    while i < len
        invariant
            i <= len,
            from + len <= image.len(),
            bytes@ == image@.subrange(from as int, from + i),
        decreases len - i,
    {
        bytes.push(image[from + i]);
        i += 1;
    }
    bytes
}

/// Carries out one step on an image held in memory.
pub fn perform(image: &mut Vec<u8>, step: Step) -> (reply: Reply)
    ensures
        (final(image)@, reply@) == served(old(image)@, step),
{
    let offset = FLAGS_OFFSET as usize;
    match step {
        Step::Open => Reply::Completed,
        Step::ReadMagic => if image.len() >= MAGIC_LEN {
            Reply::Bytes(copy_bytes(image, 0, MAGIC_LEN))
        } else {
            Reply::Failed
        },
        Step::ReadFlags => if image.len() > offset {
            Reply::Bytes(copy_bytes(image, offset, 1))
        } else {
            Reply::Failed
        },
        Step::WriteFlags(flags) => if image.len() > offset {
            image[offset] = flags;
            Reply::Completed
        } else {
            Reply::Failed
        },
        Step::Patched => Reply::Completed,
        Step::Failed(_) => Reply::Completed,
    }
}

/// How many operations a patch may still ask for.
spec fn steps_left(step: Step) -> nat {
    match step {
        Step::Open => 4,
        Step::ReadMagic => 3,
        Step::ReadFlags => 2,
        Step::WriteFlags(_) => 1,
        Step::Patched => 0,
        Step::Failed(_) => 0,
    }
}

/// What holds of a patch under way on an image in memory that held `before`
/// at the start and holds `now`.
spec fn on_course(before: Seq<u8>, mask: u8, now: Seq<u8>, step: Step) -> bool {
    match step {
        Step::Open => now == before,
        Step::ReadMagic => now == before,
        Step::ReadFlags => now == before && has_magic(before),
        Step::WriteFlags(flags) => {
            &&& now == before
            &&& has_magic(before)
            &&& before.len() > FLAGS_OFFSET
            &&& flags == patched_flags(before[FLAGS_OFFSET as int], mask)
        },
        Step::Patched => patch_result(before, mask) == Ok::<Seq<u8>, PatchError>(now),
        Step::Failed(error) => {
            &&& now == before
            &&& patch_result(before, mask) == Err::<Seq<u8>, PatchError>(error)
        },
    }
}

/// Patches an image held in memory, by the same steps as a file.
///
/// The result and the bytes left behind are those of [`patch_result`]: on
/// success only the flags byte has changed, and on failure nothing has.
pub fn patch_image(image: &mut Vec<u8>, mask: u8) -> (result: Result<(), PatchError>)
    ensures
        match patch_result(old(image)@, mask) {
            Ok(bytes) => result is Ok && final(image)@ == bytes,
            Err(error) => result == Err::<(), PatchError>(error) && final(image)@ == old(image)@,
        },
{
    let ghost before = image@;
    let mut step = start();
    loop
        invariant
            before == old(image)@,
            on_course(before, mask, image@, step),
        decreases steps_left(step),
    {
        match step.outcome() {
            Some(result) => {
                return result;
            },
            None => {},
        }
        let reply = perform(image, step);
        step = advance(step, mask, &reply);
    }
}

} // verus!

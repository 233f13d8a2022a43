//! Progress lines shown while a file is encrypted or sent to the vault.
use vstd::prelude::*;

use crate::text::{printable_ascii, display_width, nat_decimal, pad_line, padded_line, push_str, push_u64_decimal, str_width};

verus! {

/// The progress text of a transfer: `{label}... {loaded} of {total} bytes. ({percent}%)`
/// when the total is known (non-zero), else `{label}... {loaded} of unknown bytes.`.
/// `percent` is the percentage already written with two decimals.
pub open spec fn transfer_progress_text(label: Seq<char>, loaded: u64, total: u64, percent: Seq<char>) -> Seq<char> {
    if total > 0 {
        label + "... "@ + nat_decimal(loaded as nat) + " of "@ + nat_decimal(total as nat) + " bytes. ("@
            + percent + "%)"@
    } else {
        label + "... "@ + nat_decimal(loaded as nat) + " of unknown bytes."@
    }
}

/// Writes the progress text of a transfer (see `transfer_progress_text`).
pub fn transfer_progress_line(label: &str, loaded: u64, total: u64, percent: &str) -> (r: String)
    ensures
        r@ == transfer_progress_text(label@, loaded, total, percent@),
{
    let mut r = String::new();
    push_str(&mut r, label);
    push_str(&mut r, "... ");
    push_u64_decimal(&mut r, loaded);
    if total > 0 {
        push_str(&mut r, " of ");
        push_u64_decimal(&mut r, total);
        push_str(&mut r, " bytes. (");
        push_str(&mut r, percent);
        push_str(&mut r, "%)");
    } else {
        push_str(&mut r, " of unknown bytes.");
    }
    assert(r@ =~= transfer_progress_text(label@, loaded, total, percent@));
    r
}

/// The progress text of an encryption: `Encrypting... ({percent}%)` when the total
/// is known (non-zero), else `Encrypting...`.
pub open spec fn encryption_progress_text(total: u64, percent: Seq<char>) -> Seq<char> {
    if total > 0 {
        "Encrypting... ("@ + percent + "%)"@
    } else {
        "Encrypting..."@
    }
}

/// Shows the progress of an upload on one terminal line that each update overwrites.
pub struct UploaderProgressPrinter {
    last_line_width: usize,
}

impl UploaderProgressPrinter {
    /// Display width of the last line printed.
    pub closed spec fn last_width(&self) -> int {
        self.last_line_width as int
    }

    /// A printer that has printed nothing yet.
    pub fn new() -> (p: UploaderProgressPrinter)
        ensures
            p.last_width() == 0,
    {
        UploaderProgressPrinter { last_line_width: 0 }
    }

    /// The first line, `Uploading...`.
    pub fn progress_start(&mut self) -> (line: String)
        ensures
            line@ == "Uploading..."@,
            final(self).last_width() == display_width(line@),
    {
        let line = String::from_str("Uploading...");
        self.last_line_width = str_width(line.as_str());
        line
    }

    /// The line for `loaded` of `total` bytes sent, padded with spaces to cover the
    /// previous line; `percent` is the percentage written with two decimals.
    pub fn progress_update(&mut self, loaded: u64, total: u64, percent: &str) -> (line: String)
        ensures
            line@ == padded_line(
                transfer_progress_text("Uploading"@, loaded, total, percent@),
                old(self).last_width(),
            ),
            final(self).last_width() == display_width(line@),
            final(self).last_width() == (if old(self).last_width() > display_width(transfer_progress_text("Uploading"@, loaded, total, percent@)) {
                old(self).last_width()
            } else {
                display_width(transfer_progress_text("Uploading"@, loaded, total, percent@)) as int
            }),
            final(self).last_width() >= old(self).last_width(),
            printable_ascii(transfer_progress_text("Uploading"@, loaded, total, percent@)) ==> display_width(
                transfer_progress_text("Uploading"@, loaded, total, percent@),
            ) == (transfer_progress_text("Uploading"@, loaded, total, percent@)).len(),
    {
        let text = transfer_progress_line("Uploading", loaded, total, percent);
        let (line, w) = pad_line(text, self.last_line_width);
        self.last_line_width = w;
        line
    }
}

/// Shows the progress of an encryption on one terminal line that each update
/// overwrites.
pub struct EncryptionProgressPrinter {
    last_line_width: usize,
}

impl EncryptionProgressPrinter {
    /// Display width of the last line printed.
    pub closed spec fn last_width(&self) -> int {
        self.last_line_width as int
    }

    /// A printer that has printed nothing yet.
    pub fn new() -> (p: EncryptionProgressPrinter)
        ensures
            p.last_width() == 0,
    {
        EncryptionProgressPrinter { last_line_width: 0 }
    }

    /// The first line, `Encrypting...`.
    pub fn progress_start(&mut self) -> (line: String)
        ensures
            line@ == "Encrypting..."@,
            final(self).last_width() == display_width(line@),
    {
        let line = String::from_str("Encrypting...");
        self.last_line_width = str_width(line.as_str());
        line
    }

    /// The line for an encryption of `total` bytes, padded with spaces to cover the
    /// previous line; `percent` is the share done, written with two decimals.
    pub fn progress_update(&mut self, total: u64, percent: &str) -> (line: String)
        ensures
            line@ == padded_line(encryption_progress_text(total, percent@), old(self).last_width()),
            final(self).last_width() == display_width(line@),
            final(self).last_width() == (if old(self).last_width() > display_width(encryption_progress_text(total, percent@)) {
                old(self).last_width()
            } else {
                display_width(encryption_progress_text(total, percent@)) as int
            }),
            final(self).last_width() >= old(self).last_width(),
            printable_ascii(encryption_progress_text(total, percent@)) ==> display_width(
                encryption_progress_text(total, percent@),
            ) == (encryption_progress_text(total, percent@)).len(),
    {
        let mut text = String::new();
        if total > 0 {
            push_str(&mut text, "Encrypting... (");
            push_str(&mut text, percent);
            push_str(&mut text, "%)");
        } else {
            push_str(&mut text, "Encrypting...");
        }
        assert(text@ =~= encryption_progress_text(total, percent@));
        let (line, w) = pad_line(text, self.last_line_width);
        self.last_line_width = w;
        line
    }
}

/// Where an upload command stands.
#[derive(Clone, Copy, Debug, PartialEq, Eq, Structural)]
pub enum UploadState {
    /// The file is being sent.
    Uploading,
    /// The media asset exists; the vault is encrypting it, and its status is asked
    /// for again and again.
    Encrypting { media_id: u64 },
    /// The tag at `next` (of the tags given) is being added.
    Tagging { media_id: u64, next: usize },
    /// Everything is done.
    Done,
    /// A request failed that ends the command with a failure.
    Failed,
}

/// What the upload command learns from the vault.
#[derive(Clone, Copy, Debug, PartialEq, Eq, Structural)]
pub enum UploadEvent {
    /// The file was sent and the media asset created.
    Uploaded(u64),
    /// A request failed.
    RequestFailed,
    /// The status of the new media asset: whether its encryption is done.
    Status { ready: bool },
    /// The request that adds a tag was answered, successfully or not.
    TagAnswered,
}

/// The state after tags start being added: the first tag, or done when there is none.
pub open spec fn tagging_start(media_id: u64, n_tags: int) -> UploadState {
    if n_tags > 0 {
        UploadState::Tagging { media_id, next: 0 }
    } else {
        UploadState::Done
    }
}

/// One step of the upload command: the file is sent; unless the wait is skipped, the
/// status is asked for until the encryption is done; then each tag is added in turn,
/// a failed tag reported and the next one tried. A failed upload or status request
/// ends the command. An event that does not fit the state leaves it unchanged.
pub open spec fn upload_step_spec(s: UploadState, e: UploadEvent, skip_encryption: bool, n_tags: int) -> UploadState {
    match (s, e) {
        (UploadState::Uploading, UploadEvent::Uploaded(id)) => if skip_encryption {
            tagging_start(id, n_tags)
        } else {
            UploadState::Encrypting { media_id: id }
        },
        (UploadState::Uploading, UploadEvent::RequestFailed) => UploadState::Failed,
        (UploadState::Encrypting { media_id }, UploadEvent::Status { ready }) => if ready {
            tagging_start(media_id, n_tags)
        } else {
            s
        },
        (UploadState::Encrypting { .. }, UploadEvent::RequestFailed) => UploadState::Failed,
        (UploadState::Tagging { media_id, next }, UploadEvent::TagAnswered) => if next + 1 < n_tags {
            UploadState::Tagging { media_id, next: (next + 1) as usize }
        } else {
            UploadState::Done
        },
        (UploadState::Tagging { media_id, next }, UploadEvent::RequestFailed) => if next + 1 < n_tags {
            UploadState::Tagging { media_id, next: (next + 1) as usize }
        } else {
            UploadState::Done
        },
        _ => s,
    }
}

/// One step of the upload command (see `upload_step_spec`); `n_tags` is the number
/// of tags given.
pub fn upload_step(s: UploadState, e: UploadEvent, skip_encryption: bool, n_tags: usize) -> (r: UploadState)
    ensures
        r == upload_step_spec(s, e, skip_encryption, n_tags as int),
{
    let start = |id: u64| -> (t: UploadState)
        ensures
            t == tagging_start(id, n_tags as int),
        {
            if n_tags > 0 {
                UploadState::Tagging { media_id: id, next: 0 }
            } else {
                UploadState::Done
            }
        };
    match (s, e) {
        (UploadState::Uploading, UploadEvent::Uploaded(id)) => if skip_encryption {
            start(id)
        } else {
            UploadState::Encrypting { media_id: id }
        },
        (UploadState::Uploading, UploadEvent::RequestFailed) => UploadState::Failed,
        (UploadState::Encrypting { media_id }, UploadEvent::Status { ready }) => if ready {
            start(media_id)
        } else {
            s
        },
        (UploadState::Encrypting { .. }, UploadEvent::RequestFailed) => UploadState::Failed,
        (UploadState::Tagging { media_id, next }, UploadEvent::TagAnswered)
        | (UploadState::Tagging { media_id, next }, UploadEvent::RequestFailed) => {
            if next < n_tags && next + 1 < n_tags {
                UploadState::Tagging { media_id, next: next + 1 }
            } else {
                UploadState::Done
            }
        },
        _ => s,
    }
}

/// Tags are added only after the encryption is done: the upload command starts
/// adding tags only on a status that says the encryption is done, or right after the
/// upload when the wait is skipped.
pub proof fn law_tags_after_encryption(s: UploadState, e: UploadEvent, skip_encryption: bool, n_tags: int)
    requires
        !(s is Tagging),
        upload_step_spec(s, e, skip_encryption, n_tags) is Tagging,
    ensures
        (s is Encrypting && e == UploadEvent::Status { ready: true }) || (s is Uploading && e is Uploaded
            && skip_encryption),
{
}

/// Every given tag is tried: after the upload, the first tag comes next when the wait
/// is skipped, or once a status says the encryption is done; each answer to a tag,
/// good or bad, moves on to the next one; and the command is done only after the last
/// tag, or without any tag when none is given.
pub proof fn law_every_tag_is_tried(
    media_id: u64,
    skip_encryption: bool,
    n_tags: int,
    k: usize,
    s: UploadState,
    e: UploadEvent,
)
    requires
        n_tags <= usize::MAX,
    ensures
        n_tags > 0 ==> upload_step_spec(UploadState::Uploading, UploadEvent::Uploaded(media_id), true, n_tags)
            == (UploadState::Tagging { media_id, next: 0 }),
        n_tags > 0 ==> upload_step_spec(
            UploadState::Encrypting { media_id },
            UploadEvent::Status { ready: true },
            skip_encryption,
            n_tags,
        ) == (UploadState::Tagging { media_id, next: 0 }),
        k + 1 < n_tags ==> upload_step_spec(
            UploadState::Tagging { media_id, next: k },
            UploadEvent::TagAnswered,
            skip_encryption,
            n_tags,
        ) == (UploadState::Tagging { media_id, next: (k + 1) as usize }),
        k + 1 < n_tags ==> upload_step_spec(
            UploadState::Tagging { media_id, next: k },
            UploadEvent::RequestFailed,
            skip_encryption,
            n_tags,
        ) == (UploadState::Tagging { media_id, next: (k + 1) as usize }),
        s != UploadState::Done && upload_step_spec(s, e, skip_encryption, n_tags) == UploadState::Done ==> (
        n_tags <= 0 || (s matches UploadState::Tagging { next, .. } && next + 1 >= n_tags)),
{
}

} // verus!

//! The commit annotation: an optional block of text describing the current
//! repository's head commit, attached to a delivery's message.  Failure to
//! read the repository never aborts a delivery — the block degrades to a
//! placeholder (or stays empty where a caller wants silence).

use vstd::prelude::*;

verus! {

/// A read-only snapshot of the head commit: short of a field, the formatter
/// substitutes a placeholder.
pub struct CommitRecord {
    pub id: String,
    pub author_name: Option<String>,
    pub author_email: Option<String>,
    pub message: Option<String>,
}

/// The field's text, or `"Unknown"` when the commit did not carry it.
pub open spec fn text_or_unknown(t: Option<String>) -> Seq<char> {
    match t {
        Some(s) => s@,
        None => "Unknown"@,
    }
}

/// The commit's message, or the placeholder when it did not carry one.
pub open spec fn message_or_default(t: Option<String>) -> Seq<char> {
    match t {
        Some(s) => s@,
        None => "No commit message"@,
    }
}

/// The annotation block for one commit: its id, author name and email, and
/// message, each on its own labelled line.
pub open spec fn spec_commit_block(rec: CommitRecord) -> Seq<char> {
    "🔑 *Commit ID*: "@ + rec.id@ + "\n👤 *Author*: "@ + text_or_unknown(rec.author_name)
        + " <"@ + text_or_unknown(rec.author_email) + ">\n✉️ *Message*: \n"@
        + message_or_default(rec.message)
}

/// The annotation for a delivery: empty when disabled; when enabled, the
/// commit's block, or the placeholder when no commit could be read.
pub open spec fn spec_annotation(show: bool, rec: Option<CommitRecord>) -> Seq<char> {
    if !show {
        Seq::empty()
    } else {
        match rec {
            Some(r) => spec_commit_block(r),
            None => "Unable to retrieve commit message"@,
        }
    }
}

/// Formats the annotation block for one commit.
pub fn format_commit_annotation(rec: &CommitRecord) -> (r: String)
    ensures
        r@ == spec_commit_block(*rec),
{
    let mut out = "🔑 *Commit ID*: ".to_owned();
    out.append(rec.id.as_str());
    out.append("\n👤 *Author*: ");
    match &rec.author_name {
        Some(s) => out.append(s.as_str()),
        None => out.append("Unknown"),
    }
    out.append(" <");
    match &rec.author_email {
        Some(s) => out.append(s.as_str()),
        None => out.append("Unknown"),
    }
    out.append(">\n✉️ *Message*: \n");
    match &rec.message {
        Some(s) => out.append(s.as_str()),
        None => out.append("No commit message"),
    }
    out
}

/// The annotation for a delivery, from whatever commit could be read.
pub fn commit_annotation(show: bool, rec: &Option<CommitRecord>) -> (r: String)
    ensures
        r@ == spec_annotation(show, *rec),
{
    if !show {
        String::new()
    } else {
        match rec {
            Some(c) => format_commit_annotation(c),
            None => "Unable to retrieve commit message".to_owned(),
        }
    }
}

/// Relies on git2 to read the repository at the working directory:
/// `Repository::open`, `Repository::head`, `Reference::peel_to_commit`, and
/// the commit's `id`, `author`, `message`, `name` and `email` accessors.
/// What comes back depends on what is on disk, so nothing is promised of it;
/// every caller handles every outcome.
#[verifier::external_body]
fn read_head_commit() -> (r: Option<CommitRecord>) {
    let repo = match git2::Repository::open("./") {
        Ok(r) => r,
        Err(_) => return None,
    };
    let commit = match repo.head().and_then(|h| h.peel_to_commit()) {
        Ok(c) => c,
        Err(_) => return None,
    };
    let author = commit.author();
    Some(CommitRecord {
        id: commit.id().to_string(),
        author_name: author.name().ok().map(|s| s.to_string()),
        author_email: author.email().ok().map(|s| s.to_string()),
        message: commit.message().ok().map(|s| s.to_string()),
    })
}

/// Resolves the annotation for a delivery: empty when disabled; when
/// enabled, the head commit's block, or the placeholder when the repository
/// cannot be read.  Never an error: resolution failure must not abort the
/// delivery.
pub fn resolve_annotation(show: bool) -> (r: String)
    ensures
        !show ==> r@ == Seq::<char>::empty(),
        show ==> r@ == "Unable to retrieve commit message"@ || (exists|rec: CommitRecord|
            r@ == #[trigger] spec_commit_block(rec)),
{
    if !show {
        String::new()
    } else {
        let rec = read_head_commit();
        let r = commit_annotation(true, &rec);
        proof {
            match rec {
                Some(c) => {
                    assert(r@ == spec_commit_block(c));
                },
                None => {},
            }
        }
        r
    }
}

/// The head commit's block for a standalone chat message: empty when the
/// repository cannot be read.
pub fn commit_note_or_empty() -> (r: String)
    ensures
        r@ == Seq::<char>::empty() || (exists|rec: CommitRecord|
            r@ == #[trigger] spec_commit_block(rec)),
{
    match read_head_commit() {
        Some(rec) => {
            let r = format_commit_annotation(&rec);
            proof {
                assert(r@ == spec_commit_block(rec));
            }
            r
        },
        None => String::new(),
    }
}

} // verus!

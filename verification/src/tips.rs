//! What a fetch did to one reference, and the line that tells of it.

use vstd::prelude::*;
use crate::err::GitError;
use crate::git::{text_of, unreadable};
use crate::oid::{CommitId, hex_of, leading};
use crate::text::{join2, join3, pad, padded, prefix_stripped, without_prefix};

verus! {

/// What kind of reference changed.
#[derive(Clone, Copy, Debug, PartialEq, Eq, Structural)]
pub enum Mark {
    /// A tag.
    Tag,
    /// A branch that follows one of the remote.
    Branch,
    /// Any other reference.
    Ref,
}

impl Mark {
    /// The word for the kind.
    pub open spec fn word(self) -> Seq<char> {
        match self {
            Mark::Tag => "tag"@,
            Mark::Branch => "branch"@,
            Mark::Ref => "ref"@,
        }
    }

    /// The word for the kind.
    pub fn label(self) -> (text: &'static str)
        ensures
            text@ == self.word(),
    {
        match self {
            Mark::Tag => "tag",
            Mark::Branch => "branch",
            Mark::Ref => "ref",
        }
    }
}

/// What a fetch did to one reference.
#[derive(Debug)]
pub enum TipUpdate {
    /// The reference is gone.
    Deleted { name: String },
    /// The reference is new.
    New { mark: Mark, from_name: String, to_name: String },
    /// The reference moved to a descendant of where it was.
    Forwarded { from: CommitId, to: CommitId, from_name: String, to_name: String },
    /// The reference moved elsewhere.
    Forced { from: CommitId, to: CommitId, from_name: String, to_name: String },
}

/// The mark and the two names of a reference that a fetch made or moved, or
/// nothing where a name that is needed is not text.
///
/// `s` is the reference's full name, `is_tag` and `is_remote` say what kind it
/// is, `short` is its short name where that is text, and `source` tells of
/// the reference on the remote that a refspec maps to it: nothing where no
/// refspec does, else its name where that is text.
///
/// A tag is named by its short name on both sides. Any other reference that
/// no refspec maps is named by its full name on both sides. One that a refspec
/// maps is, where it follows a branch of the remote, a branch from the source
/// without `refs/heads/` to its short name, and else a reference from the
/// source to its full name.
pub open spec fn names_of(
    s: Seq<char>,
    is_tag: bool,
    is_remote: bool,
    short: Option<String>,
    source: Option<Option<String>>,
) -> Option<(Mark, Seq<char>, Seq<char>)> {
    if is_tag {
        match short {
            Some(name) => Some((Mark::Tag, name@, name@)),
            None => None,
        }
    } else {
        match source {
            None => Some((Mark::Ref, s, s)),
            Some(None) => None,
            Some(Some(src)) => if is_remote {
                match short {
                    Some(name) => Some(
                        (Mark::Branch, without_prefix(src@, "refs/heads/"@), name@),
                    ),
                    None => None,
                }
            } else {
                Some((Mark::Ref, src@, s))
            },
        }
    }
}

/// The mark and the two names of a reference that a fetch made or moved; the
/// error for a name that is not text where one that is needed is none.
pub fn tip_names(
    s: &str,
    is_tag: bool,
    is_remote: bool,
    short: Option<String>,
    source: Option<Option<String>>,
) -> (r: Result<(Mark, String, String), GitError>)
    ensures
        names_of(s@, is_tag, is_remote, short, source) matches Some((mark, from_name, to_name))
            ==> (r matches Ok((m, a, b)) && m == mark && a@ == from_name && b@ == to_name),
        names_of(s@, is_tag, is_remote, short, source) is None ==> (r matches Err(e) && e.is_own(
            unreadable(),
        )),
{
    if is_tag {
        let name = text_of(short)?;
        Ok((Mark::Tag, name.clone(), name))
    } else {
        match source {
            None => Ok((Mark::Ref, String::from_str(s), String::from_str(s))),
            Some(found) => {
                let src = text_of(found)?;
                if is_remote {
                    let from_name = String::from_str(prefix_stripped(src.as_str(), "refs/heads/"));
                    let to_name = text_of(short)?;
                    Ok((Mark::Branch, from_name, to_name))
                } else {
                    Ok((Mark::Ref, src, String::from_str(s)))
                }
            },
        }
    }
}

/// What became of a reference that a fetch moved from `from` to `to`:
/// `answer` is what the repository says to the question whether `to`
/// descends from `from`. The move is forward where it says yes, and forced
/// where it says no or fails to say.
pub fn moved_tip(
    answer: Result<bool, GitError>,
    from: &CommitId,
    to: &CommitId,
    from_name: String,
    to_name: String,
) -> (update: TipUpdate)
    ensures
        answer matches Ok(true) ==> (update matches TipUpdate::Forwarded {
            from: f,
            to: t,
            from_name: a,
            to_name: b,
        } && f@ == from@ && t@ == to@ && a == from_name && b == to_name),
        !(answer matches Ok(true)) ==> (update matches TipUpdate::Forced {
            from: f,
            to: t,
            from_name: a,
            to_name: b,
        } && f@ == from@ && t@ == to@ && a == from_name && b == to_name),
{
    let forward = match answer {
        Ok(found) => found,
        Err(_) => false,
    };
    if forward {
        TipUpdate::Forwarded { from: from.clone(), to: to.clone(), from_name, to_name }
    } else {
        TipUpdate::Forced { from: from.clone(), to: to.clone(), from_name, to_name }
    }
}

/// The two abbreviated identifiers of a move, with two dots between them.
pub open spec fn span(from: Seq<u8>, to: Seq<u8>) -> Seq<char> {
    leading(hex_of(from), 10) + ".."@ + leading(hex_of(to), 10)
}

/// A padded source name, an arrow, and a padded target name.
pub open spec fn arrow(from_name: Seq<char>, to_name: Seq<char>) -> Seq<char> {
    padded(from_name, 14) + " -> "@ + padded(to_name, 14)
}

impl TipUpdate {
    /// The line that tells of the update.
    pub open spec fn line(&self) -> Seq<char> {
        match self {
            TipUpdate::Deleted { name } => " - [deleted]               "@ + padded("(none)"@, 14)
                + " -> "@ + name@,
            TipUpdate::New { mark, from_name, to_name } => " * "@ + padded(
                "[new "@ + mark.word() + "]"@,
                24,
            ) + padded(from_name@, 14) + " -> "@ + to_name@,
            TipUpdate::Forwarded { from, to, from_name, to_name } => "   "@ + span(from@, to@)
                + "  "@ + arrow(from_name@, to_name@),
            TipUpdate::Forced { from, to, from_name, to_name } => " + "@ + span(from@, to@) + "  "@
                + arrow(from_name@, to_name@) + " (forced update)"@,
        }
    }

    /// The line that tells of the update.
    pub fn text(&self) -> (out: String)
        ensures
            out@ == self.line(),
    {
        match self {
            TipUpdate::Deleted { name } => {
                let none = pad("(none)", 14);
                let mut out = join2(" - [deleted]               ", none.as_str());
                out.append(" -> ");
                out.append(name.as_str());
                out
            },
            TipUpdate::New { mark, from_name, to_name } => {
                let tag = join3("[new ", mark.label(), "]");
                let tag = pad(tag.as_str(), 24);
                let from_name = pad(from_name.as_str(), 14);
                let mut out = join3(" * ", tag.as_str(), from_name.as_str());
                out.append(" -> ");
                out.append(to_name.as_str());
                out
            },
            TipUpdate::Forwarded { from, to, from_name, to_name } => {
                let moved = move_text(from, to, from_name.as_str(), to_name.as_str());
                join2("   ", moved.as_str())
            },
            TipUpdate::Forced { from, to, from_name, to_name } => {
                let moved = move_text(from, to, from_name.as_str(), to_name.as_str());
                join3(" + ", moved.as_str(), " (forced update)")
            },
        }
    }
}

fn move_text(from: &CommitId, to: &CommitId, from_name: &str, to_name: &str) -> (out: String)
    ensures
        out@ == span(from@, to@) + "  "@ + arrow(from_name@, to_name@),
{
    let old_id = from.abbrev(10);
    let new_id = to.abbrev(10);
    let mut out = join3(old_id.as_str(), "..", new_id.as_str());
    out.append("  ");
    let source = pad(from_name, 14);
    out.append(source.as_str());
    out.append(" -> ");
    let target = pad(to_name, 14);
    out.append(target.as_str());
    assert(out@ =~= span(from@, to@) + "  "@ + arrow(from_name@, to_name@));
    out
}

} // verus!

use git_hubsync::action::{asked_and_so, orphan_kind, tracked_kind, ActionKind, Basis};
use git_hubsync::err::{ErrorClass, ErrorCode, GitError};
use git_hubsync::git::{
    choose_remote_name, default_branch_name, first_answer, first_follower, move_message, nameless,
    pushdefault_key, pushremote_key, readable, remote_branch_name, require_attached,
    sole_remote_name, text_of, Search,
};
use git_hubsync::hubsync::{
    concerns, fallback_name, follower_line, missing_line, named_line, Notice,
};
use git_hubsync::oid::CommitId;
use git_hubsync::text::{bytes_equal, join2, join3, pad, prefix_stripped};
use git_hubsync::tips::{moved_tip, tip_names, Mark, TipUpdate};

fn id(byte: u8) -> CommitId {
    CommitId::new(vec![byte; 20])
}

const ALL: [ActionKind; 8] = [
    ActionKind::UpToDate,
    ActionKind::Merge,
    ActionKind::UpdateRef,
    ActionKind::Unpushed,
    ActionKind::CheckoutAndDelete,
    ActionKind::NoDefault,
    ActionKind::Delete,
    ActionKind::Unmerged,
];

#[test]
fn equal_tips_are_up_to_date_whatever_else_holds() {
    for behind in [false, true] {
        for current in [false, true] {
            assert_eq!(tracked_kind(&id(1), &id(1), behind, current), ActionKind::UpToDate);
        }
    }
    let empty = CommitId::new(vec![]);
    assert_eq!(tracked_kind(&empty, &empty.clone(), false, true), ActionKind::UpToDate);
}

#[test]
fn a_branch_behind_is_merged_only_where_it_is_current() {
    assert_eq!(tracked_kind(&id(1), &id(2), true, true), ActionKind::Merge);
    assert_eq!(tracked_kind(&id(1), &id(2), true, false), ActionKind::UpdateRef);
}

#[test]
fn a_diverged_branch_is_unpushed() {
    assert_eq!(tracked_kind(&id(1), &id(2), false, true), ActionKind::Unpushed);
    assert_eq!(tracked_kind(&id(1), &id(2), false, false), ActionKind::Unpushed);
    let shorter = CommitId::new(vec![1; 19]);
    assert_eq!(tracked_kind(&shorter, &id(1), false, false), ActionKind::Unpushed);
}

#[test]
fn a_branch_without_upstream_has_four_outcomes() {
    for current in [false, true] {
        for default in [false, true] {
            assert_eq!(orphan_kind(false, current, default), ActionKind::Unmerged);
        }
    }
    assert_eq!(orphan_kind(true, false, false), ActionKind::Delete);
    assert_eq!(orphan_kind(true, false, true), ActionKind::Delete);
    assert_eq!(orphan_kind(true, true, false), ActionKind::NoDefault);
    assert_eq!(orphan_kind(true, true, true), ActionKind::CheckoutAndDelete);
}

#[test]
fn a_second_look_after_an_update_finds_the_branch_up_to_date() {
    for current in [false, true] {
        let first = tracked_kind(&id(1), &id(2), true, current);
        assert!(matches!(first, ActionKind::Merge | ActionKind::UpdateRef));
        for behind in [false, true] {
            for current_then in [false, true] {
                let second = tracked_kind(&id(2), &id(2), behind, current_then);
                assert_eq!(second, ActionKind::UpToDate);
            }
        }
    }
    let first = tracked_kind(&id(1), &id(2), false, true);
    assert_eq!(first, ActionKind::Unpushed);
    assert_eq!(tracked_kind(&id(1), &id(2), false, false), first);
}

#[test]
fn actions_have_their_names() {
    let names: Vec<&str> = ALL.iter().map(|k| k.label()).collect();
    assert_eq!(
        names,
        [
            "up-to-date",
            "merge ",
            "update-ref ",
            "unpushed",
            "checkout-and-delete",
            "nodefault",
            "delete",
            "unmerged"
        ]
    );
}

#[test]
fn identifiers_compare_by_their_bytes() {
    assert!(id(7).same(&id(7)));
    assert!(!id(7).same(&id(8)));
    assert!(!id(7).same(&CommitId::new(vec![7; 19])));
    let mut last = vec![7u8; 20];
    last[19] = 8;
    assert!(!id(7).same(&CommitId::new(last)));
    assert_eq!(id(7).clone().as_bytes(), &vec![7u8; 20]);
}

#[test]
fn only_zeros_are_the_zero_identifier() {
    assert!(id(0).is_zero());
    assert!(CommitId::new(vec![]).is_zero());
    assert!(!id(1).is_zero());
    let mut last = vec![0u8; 20];
    last[19] = 1;
    assert!(!CommitId::new(last).is_zero());
}

#[test]
fn identifiers_are_written_in_hexadecimal() {
    let bytes = vec![0x00, 0x1f, 0xa9, 0xff, 0x5c, 0x3e, 0x70, 0x8b, 0x2d, 0x64];
    let id = CommitId::new(bytes);
    assert_eq!(id.hex(), "001fa9ff5c3e708b2d64");
    assert_eq!(id.abbrev(7), "001fa9f");
    assert_eq!(id.abbrev(10), "001fa9ff5c");
    assert_eq!(id.abbrev(0), "");
    assert_eq!(id.abbrev(1), "0");
    assert_eq!(id.abbrev(20), "001fa9ff5c3e708b2d64");
    assert_eq!(id.abbrev(usize::MAX), "001fa9ff5c3e708b2d64");
    assert_eq!(CommitId::new(vec![]).hex(), "");
}

#[test]
fn a_prefix_is_stripped_only_from_the_front() {
    assert_eq!(prefix_stripped("refs/heads/main", "refs/heads/"), "main");
    assert_eq!(prefix_stripped("refs/tags/v1", "refs/heads/"), "refs/tags/v1");
    assert_eq!(prefix_stripped("x/refs/heads/main", "refs/heads/"), "x/refs/heads/main");
    assert_eq!(prefix_stripped("refs/heads/", "refs/heads/"), "");
    assert_eq!(prefix_stripped("refs", "refs/heads/"), "refs");
    assert_eq!(prefix_stripped("main", ""), "main");
    assert_eq!(prefix_stripped("", "refs/heads/"), "");
    assert_eq!(prefix_stripped("refs/heads/refs/heads/x", "refs/heads/"), "refs/heads/x");
}

#[test]
fn padding_fills_up_to_the_width() {
    assert_eq!(pad("ab", 5), "ab   ");
    assert_eq!(pad("abcde", 5), "abcde");
    assert_eq!(pad("abcdef", 5), "abcdef");
    assert_eq!(pad("", 3), "   ");
    assert_eq!(pad("x", 0), "x");
    assert_eq!(pad("äö", 4), format!("{:4}", "äö"));
    assert_eq!(pad("(none)", 14), format!("{:14}", "(none)"));
}

#[test]
fn texts_are_joined_in_order() {
    assert_eq!(join2("a", "bc"), "abc");
    assert_eq!(join2("", ""), "");
    assert_eq!(join3("a", "/", "b"), "a/b");
}

#[test]
fn names_are_put_together() {
    assert_eq!(default_branch_name("origin", "refs/heads/main"), "origin/main");
    assert_eq!(default_branch_name("origin", "main"), "origin/main");
    assert_eq!(default_branch_name("up", "refs/heads/a/b"), "up/a/b");
    assert_eq!(pushremote_key("topic"), "branch.topic.pushremote");
    assert_eq!(
        move_message("ff", "origin/ff"),
        format!("update-ref: moving from {} to {}", "ff", "origin/ff")
    );
}

#[test]
fn a_name_that_is_not_text_is_an_error() {
    assert_eq!(text_of(Some("main".to_string())).unwrap(), "main");
    let e = text_of(None).unwrap_err();
    assert_eq!(e.text(), "Unable to convert to string");
    assert!(!e.is_reported());
    assert!(!e.is_absent());
    assert!(!e.is_unconfigured());
}

#[test]
fn one_remote_alone_is_the_default() {
    assert_eq!(sole_remote_name(vec![Some("origin".to_string())]).unwrap(), Some("origin".to_string()));
    assert_eq!(sole_remote_name(vec![]).unwrap(), None);
    let two = vec![Some("origin".to_string()), Some("github".to_string())];
    assert_eq!(sole_remote_name(two).unwrap(), None);
    assert_eq!(sole_remote_name(vec![None, None]).unwrap(), None);
    let e = sole_remote_name(vec![None]).unwrap_err();
    assert_eq!(e.text(), "Unable to convert to string");
}

#[test]
fn errors_carry_their_message() {
    let e = GitError::new("Head is detached".to_string());
    assert_eq!(e.text(), "Head is detached");
    assert!(!e.is_reported());
    let e = GitError::reported("gone".to_string(), ErrorClass::Config, ErrorCode::NotFound);
    assert_eq!(e.text(), "gone");
    assert!(e.is_reported());
    assert!(e.is_absent());
    assert!(e.is_unconfigured());
    let e = GitError::reported("gone".to_string(), ErrorClass::Reference, ErrorCode::NotFound);
    assert!(e.is_absent());
    assert!(!e.is_unconfigured());
    let e = GitError::reported("odd".to_string(), ErrorClass::Invalid, ErrorCode::NotFound);
    assert!(!e.is_absent());
    let e = GitError::reported("odd".to_string(), ErrorClass::Config, ErrorCode::Other);
    assert!(!e.is_absent());
    assert!(!e.is_unconfigured());
    assert!(!e.is_absent());
    assert!(!e.is_unconfigured());
}

#[test]
fn a_branch_takes_part_by_its_remote() {
    let origin = Some("origin".to_string());
    let github = Some("github".to_string());
    let other = Some("other".to_string());
    assert!(concerns(&origin, &origin.clone(), &None));
    assert!(!concerns(&github, &origin, &None));
    assert!(concerns(&github, &origin, &Some(github.clone())));
    assert!(!concerns(&other, &origin, &Some(github.clone())));
    assert!(concerns(&None, &None, &None));
    assert!(!concerns(&None, &origin, &None));
    assert!(concerns(&None, &origin, &Some(None)));
    assert!(!concerns(&origin, &None, &Some(None)));
}

#[test]
fn notices_are_worded_as_lines() {
    let was = CommitId::new(vec![0xab, 0xcd, 0xef, 0x01, 0x23]);
    let updated = Notice::Updated { name: "master".to_string(), was: was.clone() };
    assert_eq!(updated.text(), "Updated branch master (was abcdef0)");
    let deleted = Notice::Deleted { name: "deleted".to_string(), was };
    assert_eq!(deleted.text(), "Deleted branch deleted (was abcdef0)");
    let unpushed = Notice::Unpushed { name: "non-ff".to_string() };
    assert_eq!(unpushed.text(), "warning: 'non-ff' seems to contain unpushed commits");
    let unmerged = Notice::Unmerged {
        name: "topic".to_string(),
        remote: "origin".to_string(),
        default: "origin/master".to_string(),
    };
    assert_eq!(
        unmerged.text(),
        "warning: 'topic' was deleted on origin, but appears not merged into 'origin/master'"
    );
    let nodefault = Notice::NoDefault { name: "topic".to_string() };
    assert_eq!(nodefault.text(), "warning: no default branch, skipping to delete 'topic'");
    let short = Notice::Updated { name: "x".to_string(), was: CommitId::new(vec![0x1f]) };
    assert_eq!(short.text(), "Updated branch x (was 1f)");
}

#[test]
fn tip_updates_are_worded_as_lines() {
    assert_eq!(Mark::Tag.label(), "tag");
    assert_eq!(Mark::Branch.label(), "branch");
    assert_eq!(Mark::Ref.label(), "ref");
    let from = CommitId::new(vec![0x11; 20]);
    let to = CommitId::new(vec![0x22; 20]);
    let deleted = TipUpdate::Deleted { name: "origin/gone".to_string() };
    assert_eq!(deleted.text(), " - [deleted]               (none)         -> origin/gone");
    let new = TipUpdate::New {
        mark: Mark::Branch,
        from_name: "topic".to_string(),
        to_name: "origin/topic".to_string(),
    };
    assert_eq!(new.text(), " * [new branch]            topic          -> origin/topic");
    let forwarded = TipUpdate::Forwarded {
        from: from.clone(),
        to: to.clone(),
        from_name: "a-long-branch-name".to_string(),
        to_name: "origin/a".to_string(),
    };
    assert_eq!(
        forwarded.text(),
        "   1111111111..2222222222  a-long-branch-name -> origin/a      "
    );
    let forced = TipUpdate::Forced {
        from,
        to,
        from_name: "b".to_string(),
        to_name: "origin/b".to_string(),
    };
    assert_eq!(
        forced.text(),
        " + 1111111111..2222222222  b              -> origin/b       (forced update)"
    );
}

#[test]
fn a_list_of_names_is_text_where_each_is() {
    let names = vec![Some("a".to_string()), Some("b".to_string())];
    assert_eq!(readable(&names).unwrap(), ["a", "b"]);
    assert!(readable(&vec![]).unwrap().is_empty());
    let broken = vec![Some("a".to_string()), None, Some("c".to_string())];
    assert_eq!(readable(&broken).unwrap_err().text(), "Unable to convert to string");
}

#[test]
fn only_an_attached_head_will_do() {
    assert!(require_attached(false).is_ok());
    let e = require_attached(true).unwrap_err();
    assert_eq!(e.text(), "Head is detached");
    assert!(!e.is_reported());
}

#[test]
fn byte_strings_are_equal_byte_by_byte() {
    assert!(bytes_equal(&vec![], &vec![]));
    assert!(bytes_equal(&vec![1, 2, 3], &vec![1, 2, 3]));
    assert!(!bytes_equal(&vec![1, 2, 3], &vec![1, 2]));
    assert!(!bytes_equal(&vec![1, 2, 3], &vec![1, 2, 4]));
    assert!(!bytes_equal(&vec![0, 2, 3], &vec![1, 2, 3]));
}

#[test]
fn the_default_branch_is_announced() {
    assert_eq!(follower_line("main"), "remote default: main");
    assert_eq!(
        named_line("origin/main", "github", "main"),
        "remote default: origin/main (use local github/main)"
    );
    assert_eq!(missing_line("origin/main"), "remote default: origin/main (no local)");
}

fn name(text: &str) -> Option<Result<String, GitError>> {
    Some(Ok(text.to_string()))
}

fn failure() -> Option<Result<String, GitError>> {
    Some(Err(GitError::new("Unable to convert to string".to_string())))
}

#[test]
fn the_first_entry_that_follows_is_found() {
    let entries = vec![None, name("origin/ff"), name("origin/main"), name("origin/main")];
    assert_eq!(first_follower(&entries, "origin/main"), Search::Found(2));
    assert_eq!(first_follower(&entries, "origin/ff"), Search::Found(1));
    assert_eq!(first_follower(&entries, "origin/none"), Search::Missing);
    assert_eq!(first_follower(&entries, "origin"), Search::Missing);
    assert_eq!(first_follower(&vec![], "origin/main"), Search::Missing);
    assert_eq!(first_follower(&vec![None, None], "origin/main"), Search::Missing);
}

#[test]
fn a_failure_before_any_follower_ends_the_search() {
    let early = vec![name("origin/ff"), failure(), name("origin/main")];
    assert_eq!(first_follower(&early, "origin/main"), Search::Failed(1));
    assert_eq!(first_follower(&early, "origin/ff"), Search::Found(0));
    let late = vec![name("origin/main"), failure()];
    assert_eq!(first_follower(&late, "origin/main"), Search::Found(0));
    assert_eq!(first_follower(&late, "origin/other"), Search::Failed(1));
}

#[test]
fn the_remote_is_taken_from_the_first_place_that_has_one() {
    let some = |s: &str| Some(s.to_string());
    let all = choose_remote_name(Some(some("up")), Ok(some("push")), Ok("default".to_string()));
    assert_eq!(all.unwrap(), "up");
    let two = choose_remote_name(None, Ok(some("push")), Ok("default".to_string()));
    assert_eq!(two.unwrap(), "push");
    let one = choose_remote_name(None, Ok(None), Ok("default".to_string()));
    assert_eq!(one.unwrap(), "default");
    let unset = GitError::reported("unset".to_string(), ErrorClass::Config, ErrorCode::NotFound);
    let none = choose_remote_name(None, Ok(None), Err(unset)).unwrap_err();
    assert_eq!(none.text(), "unset");
    assert!(none.is_unconfigured());
    let unset = GitError::reported("unset".to_string(), ErrorClass::Config, ErrorCode::NotFound);
    assert_eq!(choose_remote_name(Some(some("up")), Ok(None), Err(unset)).unwrap(), "up");
    let bad = choose_remote_name(Some(None), Ok(some("push")), Ok("default".to_string()));
    assert_eq!(bad.unwrap_err().text(), "Unable to convert to string");
    let broken = GitError::new("Unable to convert to string".to_string());
    let stop = choose_remote_name(None, Err(broken), Ok("default".to_string()));
    assert_eq!(stop.unwrap_err().text(), "Unable to convert to string");
    let broken = GitError::new("Unable to convert to string".to_string());
    let past = choose_remote_name(Some(some("up")), Err(broken), Ok("default".to_string()));
    assert_eq!(past.unwrap(), "up");
}

#[test]
fn keys_and_names_of_the_push_remote() {
    assert_eq!(pushdefault_key(), "remote.pushdefault");
    assert_eq!(remote_branch_name("github", "topic"), "github/topic");
    assert_eq!(remote_branch_name("a", "b/c"), "a/b/c");
    let e = nameless("Unable to get branch name".to_string());
    assert_eq!(e.text(), "Unable to get branch name");
    assert!(e.is_reported());
    assert!(!e.is_absent());
    assert!(!e.is_unconfigured());
    assert_eq!(fallback_name(false), "main");
    assert_eq!(fallback_name(true), "master");
}

#[test]
fn a_fetched_reference_is_named_by_its_kind() {
    let some = |s: &str| Some(s.to_string());
    let tag = tip_names("refs/tags/v1", true, false, some("v1"), None).unwrap();
    assert_eq!(tag, (Mark::Tag, "v1".to_string(), "v1".to_string()));
    let tag = tip_names("refs/tags/v1", true, true, some("v1"), Some(some("refs/heads/x")));
    assert_eq!(tag.unwrap(), (Mark::Tag, "v1".to_string(), "v1".to_string()));
    let branch = tip_names(
        "refs/remotes/origin/x",
        false,
        true,
        some("origin/x"),
        Some(some("refs/heads/x")),
    );
    assert_eq!(branch.unwrap(), (Mark::Branch, "x".to_string(), "origin/x".to_string()));
    let other = tip_names("refs/notes/n", false, false, some("notes/n"), Some(some("refs/src/n")));
    assert_eq!(
        other.unwrap(),
        (Mark::Ref, "refs/src/n".to_string(), "refs/notes/n".to_string())
    );
    let plain = tip_names("refs/heads/m", false, true, some("m"), None).unwrap();
    assert_eq!(plain, (Mark::Ref, "refs/heads/m".to_string(), "refs/heads/m".to_string()));
    let plain = tip_names("refs/heads/m", false, false, None, None).unwrap();
    assert_eq!(plain, (Mark::Ref, "refs/heads/m".to_string(), "refs/heads/m".to_string()));
    let unread = "Unable to convert to string";
    assert_eq!(tip_names("t", true, false, None, None).unwrap_err().text(), unread);
    assert_eq!(tip_names("r", false, true, some("r"), Some(None)).unwrap_err().text(), unread);
    let no_short = tip_names("r", false, true, None, Some(some("refs/heads/r")));
    assert_eq!(no_short.unwrap_err().text(), unread);
    let unused = tip_names("r", false, false, None, Some(some("refs/heads/r"))).unwrap();
    assert_eq!(unused, (Mark::Ref, "refs/heads/r".to_string(), "r".to_string()));
}

#[test]
fn a_move_is_forward_only_where_the_repository_says_so() {
    let from = CommitId::new(vec![0x11; 20]);
    let to = CommitId::new(vec![0x22; 20]);
    let forward = moved_tip(Ok(true), &from, &to, "a".to_string(), "origin/a".to_string());
    match forward {
        TipUpdate::Forwarded { from: f, to: t, from_name, to_name } => {
            assert!(f.same(&from));
            assert!(t.same(&to));
            assert_eq!(from_name, "a");
            assert_eq!(to_name, "origin/a");
        }
        _ => panic!("not forward"),
    }
    let forced = moved_tip(Ok(false), &from, &to, "a".to_string(), "origin/a".to_string());
    match forced {
        TipUpdate::Forced { from: f, to: t, from_name, to_name } => {
            assert!(f.same(&from));
            assert!(t.same(&to));
            assert_eq!(from_name, "a");
            assert_eq!(to_name, "origin/a");
        }
        _ => panic!("not forced"),
    }
    let failed = GitError::reported("lost".to_string(), ErrorClass::Other, ErrorCode::Other);
    let forced = moved_tip(Err(failed), &from, &to, "a".to_string(), "origin/a".to_string());
    assert!(matches!(forced, TipUpdate::Forced { .. }));
}

#[test]
fn the_parts_of_a_notice_make_up_its_line() {
    let was = CommitId::new(vec![0xab, 0xcd, 0xef, 0x01, 0x23]);
    let notices = vec![
        Notice::Updated { name: "master".to_string(), was: was.clone() },
        Notice::Deleted { name: "deleted".to_string(), was },
        Notice::Unpushed { name: "non-ff".to_string() },
        Notice::Unmerged {
            name: "topic".to_string(),
            remote: "origin".to_string(),
            default: "origin/master".to_string(),
        },
        Notice::NoDefault { name: "topic".to_string() },
    ];
    for notice in notices.iter() {
        let parts = notice.parts();
        let joined = format!("{}{}{}{}", parts.lead, parts.sep, parts.accent, parts.tail);
        assert_eq!(joined, notice.text());
    }
    let updated = notices[0].parts();
    assert_eq!(updated.lead, "Updated branch");
    assert_eq!(updated.sep, " ");
    assert_eq!(updated.accent, "master");
    assert_eq!(updated.tail, " (was abcdef0)");
    let deleted = notices[1].parts();
    assert_eq!(deleted.lead, "Deleted branch");
    assert_eq!(deleted.accent, "deleted");
    let warned = notices[2].parts();
    assert_eq!(warned.lead, "warning");
    assert_eq!(warned.sep, "");
    assert_eq!(warned.accent, "");
    assert_eq!(warned.tail, ": 'non-ff' seems to contain unpushed commits");
}

#[test]
fn the_first_refspec_with_an_answer_gives_the_source() {
    let fail = || Some(Err(GitError::reported("no match".to_string(), ErrorClass::Other, ErrorCode::Other)));
    let text = |s: &str| Some(Ok(Some(s.to_string())));
    assert_eq!(first_answer(vec![]), None);
    assert_eq!(first_answer(vec![None, fail(), None]), None);
    assert_eq!(
        first_answer(vec![fail(), text("refs/heads/a"), text("refs/heads/b")]),
        Some(Some("refs/heads/a".to_string()))
    );
    assert_eq!(
        first_answer(vec![None, text("refs/heads/b"), fail()]),
        Some(Some("refs/heads/b".to_string()))
    );
    assert_eq!(first_answer(vec![fail(), Some(Ok(None)), text("refs/heads/c")]), Some(None));
    assert_eq!(first_answer(vec![text("x")]), Some(Some("x".to_string())));
}

#[test]
fn a_basis_gives_the_decision_of_the_table() {
    let following = |local: u8, upstream: u8, behind: bool, is_current: Option<bool>| {
        Basis::Following { local: id(local), upstream: id(upstream), behind, is_current }
    };
    assert_eq!(following(1, 1, false, None).decide(), ActionKind::UpToDate);
    assert_eq!(following(1, 1, true, Some(true)).decide(), ActionKind::UpToDate);
    assert_eq!(following(1, 2, true, Some(true)).decide(), ActionKind::Merge);
    assert_eq!(following(1, 2, true, Some(false)).decide(), ActionKind::UpdateRef);
    assert_eq!(following(1, 2, false, None).decide(), ActionKind::Unpushed);
    let orphan = |merged: bool, is_current: Option<bool>, has_default: bool| {
        Basis::Orphan { merged, is_current, has_default }
    };
    assert_eq!(orphan(false, None, true).decide(), ActionKind::Unmerged);
    assert_eq!(orphan(false, None, false).decide(), ActionKind::Unmerged);
    assert_eq!(orphan(true, Some(false), true).decide(), ActionKind::Delete);
    assert_eq!(orphan(true, Some(false), false).decide(), ActionKind::Delete);
    assert_eq!(orphan(true, Some(true), true).decide(), ActionKind::CheckoutAndDelete);
    assert_eq!(orphan(true, Some(true), false).decide(), ActionKind::NoDefault);
    assert!(asked_and_so(&Some(true)));
    assert!(!asked_and_so(&Some(false)));
    assert!(!asked_and_so(&None));
}

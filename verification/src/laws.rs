//! The relay's governing laws, stated over the spec-level model that the
//! executable functions' contracts use.

use vstd::prelude::*;
use crate::copy_list::differs_from;
use crate::copy_list::without;
use crate::relay::is_copy_cmd;
use crate::relay::lemma_tags_differ;
use crate::relay::is_paste_cmd;
use crate::relay::next_list;
use crate::relay::shows_window;
use crate::relay::starts_bulk_copy;

verus! {

/// Copy commands accumulate: dispatching one copy and then another appends
/// both paths, in the order the commands arrived.
pub proof fn lemma_accumulation(list: Seq<Seq<char>>, first: Seq<Seq<char>>, second: Seq<Seq<char>>)
    requires
        is_copy_cmd(first),
        is_copy_cmd(second),
    ensures
        next_list(next_list(list, first), second) == list.push(first[2]).push(second[2]),
{
}

/// Dispatching a paste never mutates the list by itself: the list changes
/// only when the finished copy is settled, so a failed copy leaves every
/// entry in place for a retry.
pub proof fn lemma_paste_leaves_list_until_settled(list: Seq<Seq<char>>, args: Seq<Seq<char>>)
    requires
        is_paste_cmd(args),
    ensures
        next_list(list, args) == list,
{
    lemma_tags_differ();
}

/// A paste over an empty list is a complete no-op: no bulk copy starts, no
/// window shows, and the list stays as it was.
pub proof fn lemma_empty_paste_is_no_op(list: Seq<Seq<char>>, args: Seq<Seq<char>>)
    requires
        is_paste_cmd(args),
        list.len() == 0,
    ensures
        !starts_bulk_copy(list, args),
        !shows_window(args),
        next_list(list, args) == list,
{
    lemma_tags_differ();
}

/// A vector that names neither a copy nor a paste is inert: the list is
/// unchanged, no window shows, and no bulk copy starts.
pub proof fn lemma_unrecognized_is_inert(list: Seq<Seq<char>>, args: Seq<Seq<char>>)
    requires
        !is_copy_cmd(args),
        !is_paste_cmd(args),
    ensures
        next_list(list, args) == list,
        !shows_window(args),
        !starts_bulk_copy(list, args),
{
}

/// The two entry points are one relay: over equal lists, the same argument
/// vector reaches the same next list and requests the same effects, whether
/// it arrived at startup or was forwarded by a secondary launch.
pub proof fn lemma_entry_points_agree(startup_list: Seq<Seq<char>>, forwarded_list: Seq<Seq<char>>, args: Seq<Seq<char>>)
    requires
        startup_list == forwarded_list,
    ensures
        next_list(startup_list, args) == next_list(forwarded_list, args),
        starts_bulk_copy(startup_list, args) == starts_bulk_copy(forwarded_list, args),
{
}

/// Removal by value is exhaustive and order-preserving: no entry equal to
/// `path` survives, and every entry that differs from `path` is kept.
pub proof fn lemma_removal_correct(list: Seq<Seq<char>>, path: Seq<char>)
    ensures
        forall|i: int| 0 <= i < without(list, path).len() ==> #[trigger] without(list, path)[i] != path,
        forall|i: int| 0 <= i < list.len() && list[i] != path ==> without(list, path).contains(#[trigger] list[i]),
{
    assert forall|i: int| 0 <= i < without(list, path).len() implies #[trigger] without(list, path)[i] != path by {
        list.lemma_filter_pred(differs_from(path), i);
    }
    assert forall|i: int| 0 <= i < list.len() && list[i] != path implies without(list, path).contains(#[trigger] list[i]) by {
        list.lemma_filter_contains(differs_from(path), i);
    }
}

} // verus!

//! The command relay: parses one argument vector — the program's own startup
//! arguments or a vector forwarded by a later launch — and maps it to a list
//! mutation or a bulk-copy request. Both entry points run the same dispatch,
//! so identical vectors behave identically wherever they arrive.

use vstd::prelude::*;
use crate::copy_list::CopyList;
use crate::copy_list::path_views;

verus! {

/// One parsed command-line forward: the second token selects the variant,
/// the third token is its operand. A vector with no recognized second token,
/// or with no operand, is `Unrecognized` and does nothing.
pub enum RelayCommand {
    Copy(String),
    Paste(String),
    Unrecognized,
}

/// What the dispatcher asks its surroundings to do; the caller performs the
/// bulk copy itself and reports the outcome back through `settle_paste`.
pub enum Action {
    Nothing,
    ShowWindow,
    BulkCopy { sources: Vec<String>, destination: String },
}

/// The vector names a copy: a `--copy` second token and a path after it.
pub open spec fn is_copy_cmd(args: Seq<Seq<char>>) -> bool {
    args.len() >= 3 && args[1] == "--copy"@
}

/// The vector names a paste: a `--paste` second token and a destination after it.
pub open spec fn is_paste_cmd(args: Seq<Seq<char>>) -> bool {
    args.len() >= 3 && args[1] == "--paste"@
}

/// The list after one dispatched vector: a copy command appends its path;
/// every other vector leaves the list as it was.
pub open spec fn next_list(list: Seq<Seq<char>>, args: Seq<Seq<char>>) -> Seq<Seq<char>> {
    if is_copy_cmd(args) {
        list.push(args[2])
    } else {
        list
    }
}

/// Dispatching asks for the window exactly on a copy command.
pub open spec fn shows_window(args: Seq<Seq<char>>) -> bool {
    is_copy_cmd(args)
}

/// Dispatching starts a bulk copy exactly on a paste command over a
/// non-empty list; an empty list makes the paste a silent no-op.
pub open spec fn starts_bulk_copy(list: Seq<Seq<char>>, args: Seq<Seq<char>>) -> bool {
    is_paste_cmd(args) && list.len() > 0
}

/// The `--copy` and `--paste` tokens name different commands.
pub(crate) proof fn lemma_tags_differ()
    ensures
        !("--copy"@ == "--paste"@),
{
    reveal_strlit("--copy");
    reveal_strlit("--paste");
    assert("--copy"@.len() == 6);
    assert("--paste"@.len() == 7);
}

/// Parses one argument vector into the command it names.
pub fn parse_command(args: &Vec<String>) -> (cmd: RelayCommand)
    ensures
        is_copy_cmd(path_views(args@)) ==> (cmd matches RelayCommand::Copy(p) && p@ == path_views(args@)[2]),
        is_paste_cmd(path_views(args@)) ==> (cmd matches RelayCommand::Paste(d) && d@ == path_views(args@)[2]),
        !is_copy_cmd(path_views(args@)) && !is_paste_cmd(path_views(args@)) ==> cmd is Unrecognized,
{
    proof {
        lemma_tags_differ();
    }
    if args.len() >= 3 {
        let copy_tag: String = "--copy".to_owned();
        if args[1] == copy_tag {
            return RelayCommand::Copy(args[2].clone());
        }
        let paste_tag: String = "--paste".to_owned();
        if args[1] == paste_tag {
            return RelayCommand::Paste(args[2].clone());
        }
        RelayCommand::Unrecognized
    } else {
        RelayCommand::Unrecognized
    }
}

/// Maps one argument vector to its effect on the list and to the action the
/// surroundings must perform. A copy appends and asks for the window; a
/// paste over a non-empty list hands out a snapshot and the destination,
/// leaving the list for `settle_paste`; everything else is inert.
pub fn dispatch(list: &mut CopyList, args: &Vec<String>) -> (act: Action)
    ensures
        final(list)@ == next_list(old(list)@, path_views(args@)),
        shows_window(path_views(args@)) ==> act is ShowWindow,
        starts_bulk_copy(old(list)@, path_views(args@)) ==> (act matches Action::BulkCopy { sources, destination }
            && path_views(sources@) == old(list)@
            && destination@ == path_views(args@)[2]),
        !shows_window(path_views(args@)) && !starts_bulk_copy(old(list)@, path_views(args@)) ==> act is Nothing,
{
    proof {
        lemma_tags_differ();
    }
    match parse_command(args) {
        RelayCommand::Copy(path) => {
            list.append(path);
            Action::ShowWindow
        },
        RelayCommand::Paste(destination) => {
            if list.len() > 0 {
                let sources = list.snapshot();
                Action::BulkCopy { sources, destination }
            } else {
                Action::Nothing
            }
        },
        RelayCommand::Unrecognized => Action::Nothing,
    }
}

/// Entry point for the primary instance's own startup arguments.
pub fn handle_startup_args(list: &mut CopyList, args: &Vec<String>) -> (act: Action)
    ensures
        final(list)@ == next_list(old(list)@, path_views(args@)),
        shows_window(path_views(args@)) ==> act is ShowWindow,
        starts_bulk_copy(old(list)@, path_views(args@)) ==> (act matches Action::BulkCopy { sources, destination }
            && path_views(sources@) == old(list)@
            && destination@ == path_views(args@)[2]),
        !shows_window(path_views(args@)) && !starts_bulk_copy(old(list)@, path_views(args@)) ==> act is Nothing,
{
    dispatch(list, args)
}

/// Entry point for a vector forwarded by a secondary launch. Its contract is
/// the contract of `handle_startup_args`: the two entry points are
/// interchangeable for identical argument vectors.
pub fn handle_forwarded_args(list: &mut CopyList, args: &Vec<String>) -> (act: Action)
    ensures
        final(list)@ == next_list(old(list)@, path_views(args@)),
        shows_window(path_views(args@)) ==> act is ShowWindow,
        starts_bulk_copy(old(list)@, path_views(args@)) ==> (act matches Action::BulkCopy { sources, destination }
            && path_views(sources@) == old(list)@
            && destination@ == path_views(args@)[2]),
        !shows_window(path_views(args@)) && !starts_bulk_copy(old(list)@, path_views(args@)) ==> act is Nothing,
{
    dispatch(list, args)
}

/// Settles a finished bulk copy: success consumes the list so the next paste
/// starts afresh; failure leaves every entry in place so the same paste can
/// be retried without repeating the copy gestures.
pub fn settle_paste(list: &mut CopyList, succeeded: bool)
    ensures
        succeeded ==> final(list)@ == Seq::<Seq<char>>::empty(),
        !succeeded ==> final(list)@ == old(list)@,
{
    if succeeded {
        list.clear();
    }
}

/// The check the bulk-copy request applies before any file is touched: an
/// empty source list is refused with a descriptive message and no side
/// effect; any non-empty list is handed on to the copy facility.
pub fn check_copy_request(sources: &Vec<String>) -> (r: Result<(), String>)
    ensures
        r is Ok <==> sources@.len() > 0,
        r matches Err(m) ==> m@ == "The copy list is empty."@,
{
    if sources.is_empty() {
        Err("The copy list is empty.".to_owned())
    } else {
        Ok(())
    }
}

/// What one tray menu selection does to the window and the process: quitting
/// also unregisters the shell entries, while an ordinary hide leaves the
/// process running so later launches still find a primary instance.
pub enum TrayResponse {
    ShowAndFocus,
    HideWindow,
    QuitAndUnregister,
    Ignore,
}

/// The `show`, `hide` and `quit` selections name different responses.
proof fn lemma_tray_ids_differ()
    ensures
        !("show"@ == "hide"@),
        !("show"@ == "quit"@),
        !("hide"@ == "quit"@),
{
    reveal_strlit("show");
    reveal_strlit("hide");
    reveal_strlit("quit");
    assert("show"@[0] == 's');
    assert("hide"@[0] == 'h');
    assert("quit"@[0] == 'q');
}

/// Maps one tray menu selection, by its identifier, to the response the
/// surroundings must perform; unknown identifiers are ignored.
pub fn tray_response(id: &String) -> (resp: TrayResponse)
    ensures
        id@ == "quit"@ ==> resp is QuitAndUnregister,
        id@ == "show"@ ==> resp is ShowAndFocus,
        id@ == "hide"@ ==> resp is HideWindow,
        id@ != "quit"@ && id@ != "show"@ && id@ != "hide"@ ==> resp is Ignore,
{
    proof {
        lemma_tray_ids_differ();
    }
    let quit_id: String = "quit".to_owned();
    if *id == quit_id {
        return TrayResponse::QuitAndUnregister;
    }
    let show_id: String = "show".to_owned();
    if *id == show_id {
        return TrayResponse::ShowAndFocus;
    }
    let hide_id: String = "hide".to_owned();
    if *id == hide_id {
        return TrayResponse::HideWindow;
    }
    TrayResponse::Ignore
}

} // verus!

//! Dialog rules: focus order of the add dialog, what the left/right keys
//! change, what an accepted dialog submits, and how a finished action is
//! described.
use vstd::prelude::*;

use crate::api::models::arr::{QualityProfile, RootFolder};
use crate::text::{chars_of, dec, i64_chars, int_str, push_chars, push_str, string_of};
use crate::tui::app::{AddField, ConfirmAction, EditField, EditModal};
use crate::tui::event::Loadable;

verus! {

/// Focus position of an add-dialog row.
pub open spec fn add_field_index(f: AddField) -> nat {
    match f {
        AddField::Profile => 0,
        AddField::Root => 1,
        AddField::Monitored => 2,
        AddField::SearchOnAdd => 3,
        AddField::Confirm => 4,
    }
}

/// Focus moves down, wrapping from the button back to the first field.
pub fn add_field_next(f: AddField) -> (r: AddField)
    ensures
        add_field_index(r) == (add_field_index(f) + 1) % 5,
{
    match f {
        AddField::Profile => AddField::Root,
        AddField::Root => AddField::Monitored,
        AddField::Monitored => AddField::SearchOnAdd,
        AddField::SearchOnAdd => AddField::Confirm,
        AddField::Confirm => AddField::Profile,
    }
}

/// Focus moves up, wrapping from the first field to the button.
pub fn add_field_prev(f: AddField) -> (r: AddField)
    ensures
        add_field_index(r) == (add_field_index(f) + 4) % 5,
{
    match f {
        AddField::Profile => AddField::Confirm,
        AddField::Root => AddField::Profile,
        AddField::Monitored => AddField::Root,
        AddField::SearchOnAdd => AddField::Monitored,
        AddField::Confirm => AddField::SearchOnAdd,
    }
}

/// Each row has its own focus position, so the position names the row.
pub proof fn lemma_add_field_index_injective(a: AddField, b: AddField)
    ensures
        add_field_index(a) == add_field_index(b) ==> a == b,
        add_field_index(a) < 5,
{
}

/// Moving focus down then up (or up then down) lands on the same row.
pub proof fn lemma_add_field_next_prev(f: AddField, n: AddField, p: AddField)
    requires
        add_field_index(n) == (add_field_index(f) + 1) % 5,
        add_field_index(p) == (add_field_index(n) + 4) % 5,
    ensures
        p == f,
{
    lemma_add_field_index_injective(p, f);
}

/// What the add dialog has chosen so far.
#[derive(Debug, Clone, Copy, PartialEq, Eq, Structural)]
pub struct AddSelection {
    pub profile_idx: usize,
    pub root_idx: usize,
    pub field: AddField,
    pub monitored: bool,
    pub search_on_add: bool,
}

/// Cycling an index through a list of `len` entries by `delta`, wrapping in
/// both directions.
pub open spec fn cycled(idx: int, delta: int, len: int) -> int {
    (idx + delta) % len
}

fn cycle_index(idx: usize, delta: i64, len: usize) -> (r: usize)
    requires
        len > 0,
        idx <= i64::MAX,
        i64::MIN <= idx + delta <= i64::MAX,
    ensures
        r == cycled(idx as int, delta as int, len as int),
        r < len,
{
    let sum: i128 = idx as i128 + delta as i128;
    let l: u128 = len as u128;
    if sum >= 0 {
        let r = (sum as u128) % l;
        r as usize
    } else {
        let a: u128 = (-sum) as u128;
        let m: u128 = a % l;
        proof {
            let q = a as int / l as int;
            vstd::arithmetic::div_mod::lemma_fundamental_div_mod(a as int, l as int);
            assert(a as int == l as int * q + m as int);
            if m == 0 {
                assert(sum as int == (-q) * (l as int) + 0) by (nonlinear_arith)
                    requires
                        a as int == l as int * q + m as int,
                        m == 0,
                        a as int == -(sum as int),
                ;
                vstd::arithmetic::div_mod::lemma_fundamental_div_mod_converse(
                    sum as int,
                    l as int,
                    -q,
                    0,
                );
            } else {
                assert(sum as int == (-q - 1) * (l as int) + (l as int - m as int)) by (
                nonlinear_arith)
                    requires
                        a as int == l as int * q + m as int,
                        a as int == -(sum as int),
                ;
                vstd::arithmetic::div_mod::lemma_fundamental_div_mod_converse(
                    sum as int,
                    l as int,
                    -q - 1,
                    l as int - m as int,
                );
            }
        }
        if m == 0 {
            0
        } else {
            (l - m) as usize
        }
    }
}

/// Left/right on the focused row: cycle the profile or root folder (once the
/// lists have arrived), or flip a yes/no; nothing else changes.
pub fn add_cycle(
    sel: &mut AddSelection,
    options: &Loadable<(Vec<QualityProfile>, Vec<RootFolder>)>,
    delta: i64,
)
    requires
        old(sel).profile_idx <= i64::MAX,
        old(sel).root_idx <= i64::MAX,
        i64::MIN <= old(sel).profile_idx + delta <= i64::MAX,
        i64::MIN <= old(sel).root_idx + delta <= i64::MAX,
    ensures
        !(options is Ready) ==> *final(sel) == *old(sel),
        options is Ready ==> {
            let profiles = options->Ready_0.0@;
            let roots = options->Ready_0.1@;
            let s = *old(sel);
            *final(sel) == match s.field {
                AddField::Profile => if profiles.len() > 0 {
                    AddSelection {
                        profile_idx: cycled(
                            s.profile_idx as int,
                            delta as int,
                            profiles.len() as int,
                        ) as usize,
                        ..s
                    }
                } else {
                    s
                },
                AddField::Root => if roots.len() > 0 {
                    AddSelection {
                        root_idx: cycled(s.root_idx as int, delta as int, roots.len() as int) as usize,
                        ..s
                    }
                } else {
                    s
                },
                AddField::Monitored => AddSelection { monitored: !s.monitored, ..s },
                AddField::SearchOnAdd => AddSelection { search_on_add: !s.search_on_add, ..s },
                AddField::Confirm => s,
            }
        },
{
    let (profiles, roots) = match options {
        Loadable::Ready(opts) => (&opts.0, &opts.1),
        _ => return,
    };
    match sel.field {
        AddField::Profile => {
            if profiles.len() > 0 {
                sel.profile_idx = cycle_index(sel.profile_idx, delta, profiles.len());
            }
        },
        AddField::Root => {
            if roots.len() > 0 {
                sel.root_idx = cycle_index(sel.root_idx, delta, roots.len());
            }
        },
        AddField::Monitored => sel.monitored = !sel.monitored,
        AddField::SearchOnAdd => sel.search_on_add = !sel.search_on_add,
        AddField::Confirm => {},
    }
}

/// Opening the add dialog on a search hit with library id `id`: a hit that
/// already has an id is in the library and is refused with this message;
/// otherwise the dialog starts on the first profile and root folder, focus
/// on the profile, monitored and searching on add.
pub fn add_start(id: i64, title: &str) -> (r: Result<AddSelection, String>)
    ensures
        id > 0 ==> (r matches Err(m) && m@ == "\""@ + title@ + "\" is already in the library"@),
        id <= 0 ==> r == Ok::<AddSelection, String>(
            AddSelection {
                profile_idx: 0,
                root_idx: 0,
                field: AddField::Profile,
                monitored: true,
                search_on_add: true,
            },
        ),
{
    if id > 0 {
        let mut m = chars_of("\"");
        push_str(&mut m, title);
        push_str(&mut m, "\" is already in the library");
        proof {
            reveal_strlit("\"");
            reveal_strlit("\" is already in the library");
            assert(m@ =~= "\""@ + title@ + "\" is already in the library"@);
        }
        return Err(string_of(&m));
    }
    Ok(
        AddSelection {
            profile_idx: 0,
            root_idx: 0,
            field: AddField::Profile,
            monitored: true,
            search_on_add: true,
        },
    )
}

/// What accepting the add dialog does.
pub enum AddSubmit {
    /// The profile and folder lists have not arrived: the dialog stays open.
    NotReady,
    /// The cursor is past the end of a list: report this message.
    Invalid(String),
    /// Add with this quality profile id and root folder path.
    Submit { profile_id: i64, root_path: String },
}

/// Resolve the dialog's cursors against the loaded lists.
pub fn add_submit(
    options: &Loadable<(Vec<QualityProfile>, Vec<RootFolder>)>,
    sel: &AddSelection,
) -> (r: AddSubmit)
    ensures
        !(options is Ready) ==> r is NotReady,
        options is Ready ==> {
            let profiles = options->Ready_0.0@;
            let roots = options->Ready_0.1@;
            if sel.profile_idx >= profiles.len() {
                r matches AddSubmit::Invalid(m) && m@ == "no quality profile selected"@
            } else if sel.root_idx >= roots.len() {
                r matches AddSubmit::Invalid(m) && m@ == "no root folder selected"@
            } else {
                r matches AddSubmit::Submit { profile_id, root_path } && profile_id
                    == profiles[sel.profile_idx as int].id && root_path@ == roots[sel.root_idx as int].path@
            }
        },
{
    let (profiles, roots) = match options {
        Loadable::Ready(opts) => (&opts.0, &opts.1),
        _ => return AddSubmit::NotReady,
    };
    if sel.profile_idx >= profiles.len() {
        return AddSubmit::Invalid(string_of(&chars_of("no quality profile selected")));
    }
    if sel.root_idx >= roots.len() {
        return AddSubmit::Invalid(string_of(&chars_of("no root folder selected")));
    }
    AddSubmit::Submit {
        profile_id: profiles[sel.profile_idx].id,
        root_path: string_of(&chars_of(roots[sel.root_idx].path.as_str())),
    }
}

/// Focus position of an edit-dialog row.
pub open spec fn edit_field_index(f: EditField) -> nat {
    match f {
        EditField::Profile => 0,
        EditField::Monitored => 1,
        EditField::Confirm => 2,
    }
}

/// Focus moves down through the edit dialog, wrapping to the first row.
pub fn edit_field_next(f: EditField) -> (r: EditField)
    ensures
        edit_field_index(r) == (edit_field_index(f) + 1) % 3,
{
    match f {
        EditField::Profile => EditField::Monitored,
        EditField::Monitored => EditField::Confirm,
        EditField::Confirm => EditField::Profile,
    }
}

/// Focus moves up through the edit dialog, wrapping to the button.
pub fn edit_field_prev(f: EditField) -> (r: EditField)
    ensures
        edit_field_index(r) == (edit_field_index(f) + 2) % 3,
{
    match f {
        EditField::Profile => EditField::Confirm,
        EditField::Monitored => EditField::Profile,
        EditField::Confirm => EditField::Monitored,
    }
}

/// Moving focus down then up in the edit dialog lands on the same row.
pub proof fn lemma_edit_field_next_prev(f: EditField, n: EditField, p: EditField)
    requires
        edit_field_index(n) == (edit_field_index(f) + 1) % 3,
        edit_field_index(p) == (edit_field_index(n) + 2) % 3,
    ensures
        p == f,
{
}

/// Left/right in the edit dialog: cycle the profile (once the list has
/// arrived) or flip "monitored"; nothing else changes.
pub fn edit_cycle(edit: &mut EditModal, delta: i64)
    requires
        old(edit).profile_idx <= i64::MAX,
        i64::MIN <= old(edit).profile_idx + delta <= i64::MAX,
    ensures
        final(edit).id == old(edit).id,
        final(edit).is_movie == old(edit).is_movie,
        final(edit).title == old(edit).title,
        final(edit).options == old(edit).options,
        final(edit).current_profile_id == old(edit).current_profile_id,
        final(edit).field == old(edit).field,
        final(edit).monitored == (if old(edit).field == EditField::Monitored {
            !old(edit).monitored
        } else {
            old(edit).monitored
        }),
        final(edit).profile_idx == (if old(edit).field == EditField::Profile
            && old(edit).options is Ready && old(edit).options->Ready_0.0@.len() > 0 {
            cycled(
                old(edit).profile_idx as int,
                delta as int,
                old(edit).options->Ready_0.0@.len() as int,
            ) as usize
        } else {
            old(edit).profile_idx
        }),
{
    match edit.field {
        EditField::Profile => {
            let len: usize = match &edit.options {
                Loadable::Ready(opts) => opts.0.len(),
                _ => 0,
            };
            if len > 0 {
                edit.profile_idx = cycle_index(edit.profile_idx, delta, len);
            }
        },
        EditField::Monitored => edit.monitored = !edit.monitored,
        EditField::Confirm => {},
    }
}

/// What accepting the edit dialog does.
#[derive(Debug, Clone, Copy, PartialEq, Eq, Structural)]
pub enum EditSubmit {
    /// The profile list has not arrived: the dialog stays open.
    NotReady,
    /// The cursor is past the end of the profile list.
    NoProfile,
    /// Save with this quality profile id.
    Submit { profile_id: i64 },
}

/// Resolve the edit dialog's profile cursor against the loaded list.
pub fn edit_submit(edit: &EditModal) -> (r: EditSubmit)
    ensures
        !(edit.options is Ready) ==> r == EditSubmit::NotReady,
        edit.options is Ready ==> {
            let profiles = edit.options->Ready_0.0@;
            r == (if edit.profile_idx < profiles.len() {
                EditSubmit::Submit { profile_id: profiles[edit.profile_idx as int].id }
            } else {
                EditSubmit::NoProfile
            })
        },
{
    match &edit.options {
        Loadable::Ready(opts) => {
            if edit.profile_idx < opts.0.len() {
                EditSubmit::Submit { profile_id: opts.0[edit.profile_idx].id }
            } else {
                EditSubmit::NoProfile
            }
        },
        _ => EditSubmit::NotReady,
    }
}

/// The toast text for an accepted confirmation once its action finishes.
pub open spec fn action_description(a: ConfirmAction) -> Seq<char> {
    match a {
        ConfirmAction::DeleteMovie { title, .. } => "removed "@ + title@,
        ConfirmAction::DeleteSeries { title, .. } => "removed "@ + title@,
        ConfirmAction::RemoveQueueItem { id, blocklist, .. } => if blocklist {
            "blocklisted queue item "@ + int_str(id as int)
        } else {
            "removed queue item "@ + int_str(id as int)
        },
        ConfirmAction::DeleteTorrent { name, .. } => "deleted "@ + name@,
        ConfirmAction::DeleteNzb { name, .. } => "deleted "@ + name@,
    }
}

pub fn describe_action(a: &ConfirmAction) -> (r: String)
    ensures
        r@ == action_description(*a),
{
    let mut out: Vec<char> = Vec::new();
    match a {
        ConfirmAction::DeleteMovie { title, .. } => {
            push_str(&mut out, "removed ");
            push_str(&mut out, title.as_str());
        },
        ConfirmAction::DeleteSeries { title, .. } => {
            push_str(&mut out, "removed ");
            push_str(&mut out, title.as_str());
        },
        ConfirmAction::RemoveQueueItem { id, blocklist, .. } => {
            if *blocklist {
                push_str(&mut out, "blocklisted queue item ");
            } else {
                push_str(&mut out, "removed queue item ");
            }
            let d = i64_chars(*id);
            push_chars(&mut out, &d);
        },
        ConfirmAction::DeleteTorrent { name, .. } => {
            push_str(&mut out, "deleted ");
            push_str(&mut out, name.as_str());
        },
        ConfirmAction::DeleteNzb { name, .. } => {
            push_str(&mut out, "deleted ");
            push_str(&mut out, name.as_str());
        },
    }
    string_of(&out)
}

} // verus!

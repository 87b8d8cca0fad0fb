//! Dialogs: one line spoken by a non-player character and the two answers
//! the player can choose from.

use crate::catalog::{has_key, lemma_position_by, lemma_position_by_is, lookup_by, position_by, put_by};
use vstd::prelude::*;

verus! {

/// One answer of the player. `next` is the id of the dialog that follows, or
/// one of the words `"exit"` and `"inventory"`.
#[derive(Debug, PartialEq, Eq)]
pub struct DialogOption {
    pub dialog: String,
    pub next: String,
}

pub struct DialogOptionView {
    pub dialog: Seq<char>,
    pub next: Seq<char>,
}

impl DeepView for DialogOption {
    type V = DialogOptionView;

    open spec fn deep_view(&self) -> DialogOptionView {
        DialogOptionView { dialog: self.dialog@, next: self.next@ }
    }
}

impl View for DialogOption {
    type V = DialogOptionView;

    open spec fn view(&self) -> DialogOptionView {
        self.deep_view()
    }
}

impl Clone for DialogOption {
    fn clone(&self) -> (res: Self)
        ensures
            res@ == self@,
    {
        DialogOption { dialog: self.dialog.clone(), next: self.next.clone() }
    }
}

#[derive(Debug, PartialEq, Eq)]
pub struct Dialog {
    pub id: String,
    pub npc_dialog: String,
    pub option_0: DialogOption,
    pub option_1: DialogOption,
}

pub struct DialogView {
    pub id: Seq<char>,
    pub npc_dialog: Seq<char>,
    pub option_0: DialogOptionView,
    pub option_1: DialogOptionView,
}

impl DeepView for Dialog {
    type V = DialogView;

    open spec fn deep_view(&self) -> DialogView {
        DialogView {
            id: self.id@,
            npc_dialog: self.npc_dialog@,
            option_0: self.option_0@,
            option_1: self.option_1@,
        }
    }
}

impl View for Dialog {
    type V = DialogView;

    open spec fn view(&self) -> DialogView {
        self.deep_view()
    }
}

impl Clone for Dialog {
    fn clone(&self) -> (res: Self)
        ensures
            res@ == self@,
    {
        Dialog {
            id: self.id.clone(),
            npc_dialog: self.npc_dialog.clone(),
            option_0: self.option_0.clone(),
            option_1: self.option_1.clone(),
        }
    }
}

/// The key under which a dialog is known: its id.
pub open spec fn dialog_key() -> spec_fn(DialogView) -> Seq<char> {
    |dialog: DialogView| dialog.id
}

/// Position of the first dialog with id `id`, or the length of the list
/// when no dialog has that id.
pub open spec fn dialog_position(dialogs: Seq<DialogView>, id: Seq<char>) -> int {
    position_by(dialogs, dialog_key(), id)
}

/// Whether some dialog of the list has id `id`.
pub open spec fn has_dialog(dialogs: Seq<DialogView>, id: Seq<char>) -> bool {
    has_key(dialogs, dialog_key(), id)
}

/// The dialog known under `id`: the first of the list with that id.
pub open spec fn dialog_by_id(dialogs: Seq<DialogView>, id: Seq<char>) -> Option<DialogView> {
    lookup_by(dialogs, dialog_key(), id)
}

/// Position of the first dialog with id `id`; the length of the list when
/// there is none.
pub fn find_dialog(dialogs: &Vec<Dialog>, id: &String) -> (at: usize)
    ensures
        at == dialog_position(dialogs.deep_view(), id@),
        at <= dialogs.len(),
        at < dialogs.len() <==> has_dialog(dialogs.deep_view(), id@),
{
    let mut i: usize = 0;
    while i < dialogs.len()
        invariant
            i <= dialogs.len(),
            forall|j: int| 0 <= j < i ==> dialog_key()(#[trigger] dialogs.deep_view()[j]) != id@,
        decreases dialogs.len() - i,
    {
        if dialogs[i].id == *id {
            proof {
                assert(dialog_key()(dialogs.deep_view()[i as int]) == id@);
                lemma_position_by_is(dialogs.deep_view(), dialog_key(), id@, i as int);
                lemma_position_by(dialogs.deep_view(), dialog_key(), id@);
            }
            return i;
        }
        i += 1;
    }
    proof {
        lemma_position_by_is(dialogs.deep_view(), dialog_key(), id@, i as int);
        lemma_position_by(dialogs.deep_view(), dialog_key(), id@);
    }
    i
}

/// Records `dialog` under its id: it takes the place of the dialog already
/// known under that id, or joins the end of the list.
pub fn insert_dialog(dialogs: &mut Vec<Dialog>, dialog: Dialog)
    ensures
        final(dialogs).deep_view() == put_by(old(dialogs).deep_view(), dialog_key(), dialog@),
{
    let at = find_dialog(dialogs, &dialog.id);
    if at < dialogs.len() {
        dialogs[at] = dialog;
        assert(dialogs.deep_view() =~= put_by(old(dialogs).deep_view(), dialog_key(), dialog@));
    } else {
        dialogs.push(dialog);
        assert(dialogs.deep_view() =~= put_by(old(dialogs).deep_view(), dialog_key(), dialog@));
    }
}

/// The list after each of `added` was recorded under its id, in turn.
pub open spec fn put_dialogs(dialogs: Seq<DialogView>, added: Seq<DialogView>) -> Seq<DialogView>
    decreases added.len(),
{
    if added.len() == 0 {
        dialogs
    } else {
        put_by(put_dialogs(dialogs, added.drop_last()), dialog_key(), added.last())
    }
}

/// Records a copy of each dialog of `parsed` under its id, in the order
/// given: of two dialogs with one id the later stays.
pub fn insert_dialogs(dialogs: &mut Vec<Dialog>, parsed: &Vec<Dialog>)
    ensures
        final(dialogs).deep_view() == put_dialogs(old(dialogs).deep_view(), parsed.deep_view()),
{
    let mut i: usize = 0;
    assert(parsed.deep_view().take(0) =~= Seq::empty());
    while i < parsed.len()
        invariant
            i <= parsed.len(),
            dialogs.deep_view() == put_dialogs(
                old(dialogs).deep_view(),
                parsed.deep_view().take(i as int),
            ),
        decreases parsed.len() - i,
    {
        proof {
            let all = parsed.deep_view();
            assert(all.take(i + 1).drop_last() =~= all.take(i as int));
            assert(all.take(i + 1).last() == parsed[i as int]@);
        }
        insert_dialog(dialogs, parsed[i].clone());
        i += 1;
    }
    assert(parsed.deep_view().take(parsed.len() as int) =~= parsed.deep_view());
}

} // verus!

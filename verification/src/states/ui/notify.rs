//! A notification menu with a title, details and up to two buttons.

use vstd::prelude::*;
use crate::states::ui::visibility_of;
use crate::states::ui::EntityRef;
use crate::states::ui::UiInput;
use crate::states::ui::UiState;
use crate::states::ui::VisibilityUpdate;

verus! {

/// The id of the root entity of the menu.
pub const ROOT_ID: &'static str = "notify";
/// The id of the first button.
pub const BUTTON_1_ID: &'static str = "notify.button_1";
/// The id of the second button.
pub const BUTTON_2_ID: &'static str = "notify.button_2";
/// The id of the label that shows the title.
pub const LABEL_TITLE_ID: &'static str = "notify.title";
/// The id of the label that shows the details.
pub const LABEL_DETAILS_ID: &'static str = "notify.details";
/// The id of the text of the first button.
pub const BUTTON_1_TEXT_ID: &'static str = "notify.button_1_btn_txt";
/// The id of the text of the second button.
pub const BUTTON_2_TEXT_ID: &'static str = "notify.button_2_btn_txt";

/// What a button of a notification does when clicked: close the
/// notification, or run an action of the caller's, which decides what comes
/// next.
#[derive(Clone, Copy, Debug, PartialEq, Eq)]
pub enum ButtonAction<A> {
    /// Close the notification.
    Pop,
    /// Run this action.
    Run(A),
}

/// A notification menu. `A` is the type of the actions that its buttons can
/// run.
pub struct NotifyState<A> {
    root: Option<EntityRef>,
    title: &'static str,
    details: String,
    button_1: Option<EntityRef>,
    button_2: Option<EntityRef>,
    button_1_text: String,
    button_2_text: String,
    on_button_1: Option<ButtonAction<A>>,
    on_button_2: Option<ButtonAction<A>>,
}

/// The text of `text`, or the empty text.
pub open spec fn text_or_empty(text: Option<String>) -> Seq<char> {
    match text {
        Some(t) => t@,
        None => Seq::empty(),
    }
}

/// What a notification does with `input`, given its buttons and their
/// actions: escape closes it; a click on a button that has an action runs
/// that action, the first button first; anything else does nothing.
pub open spec fn notify_outcome<A>(
    input: UiInput,
    button_1: Option<EntityRef>,
    button_2: Option<EntityRef>,
    on_button_1: Option<ButtonAction<A>>,
    on_button_2: Option<ButtonAction<A>>,
) -> Option<ButtonAction<A>> {
    match input {
        UiInput::Escape => Some(ButtonAction::Pop),
        UiInput::Click(target) => if button_1 == Some(target) && on_button_1 is Some {
            on_button_1
        } else if button_2 == Some(target) && on_button_2 is Some {
            on_button_2
        } else {
            None
        },
        UiInput::Other => None,
    }
}

impl<A: Copy> NotifyState<A> {
    /// The title.
    pub closed spec fn title_text(&self) -> Seq<char> {
        self.title@
    }

    /// The details.
    pub closed spec fn details_text(&self) -> Seq<char> {
        self.details@
    }

    /// The texts of the two buttons.
    pub closed spec fn button_texts(&self) -> (Seq<char>, Seq<char>) {
        (self.button_1_text@, self.button_2_text@)
    }

    /// The entities of the two buttons, once they were found.
    pub closed spec fn buttons(&self) -> (Option<EntityRef>, Option<EntityRef>) {
        (self.button_1, self.button_2)
    }

    /// The actions of the two buttons.
    pub closed spec fn actions(&self) -> (Option<ButtonAction<A>>, Option<ButtonAction<A>>) {
        (self.on_button_1, self.on_button_2)
    }

    /// A notification whose entities are not found yet; missing texts are
    /// empty.
    pub fn new(
        title: &'static str,
        details: Option<String>,
        button_1_text: Option<String>,
        button_2_text: Option<String>,
        on_button_1: Option<ButtonAction<A>>,
        on_button_2: Option<ButtonAction<A>>,
    ) -> (r: Self)
        ensures
            r.root() == None::<EntityRef>,
            r.buttons() == (None::<EntityRef>, None::<EntityRef>),
            r.title_text() == title@,
            r.details_text() == text_or_empty(details),
            r.button_texts() == (text_or_empty(button_1_text), text_or_empty(button_2_text)),
            r.actions() == (on_button_1, on_button_2),
    {
        NotifyState {
            root: None,
            title,
            details: text_or_new(details),
            button_1: None,
            button_2: None,
            button_1_text: text_or_new(button_1_text),
            button_2_text: text_or_new(button_2_text),
            on_button_1,
            on_button_2,
        }
    }

    /// A confirmation: the first button, labelled `conformation_text`, runs
    /// `on_confirm`; the second, labelled "Cancel", closes the notification.
    pub fn new_as_confirm(title: &'static str, conformation_text: String, on_confirm: A) -> (r: Self)
        ensures
            r.root() == None::<EntityRef>,
            r.buttons() == (None::<EntityRef>, None::<EntityRef>),
            r.title_text() == title@,
            r.details_text() == Seq::<char>::empty(),
            r.button_texts() == (conformation_text@, "Cancel"@),
            r.actions() == (Some(ButtonAction::Run(on_confirm)), Some(ButtonAction::<A>::Pop)),
    {
        Self::new(
            title,
            None,
            Some(conformation_text),
            Some(String::from_str("Cancel")),
            Some(ButtonAction::Run(on_confirm)),
            Some(ButtonAction::Pop),
        )
    }

    /// An error: it shows `details`, and its second button, labelled "OK",
    /// closes it; the first button has no text and no action.
    pub fn new_as_error(title: &'static str, details: String) -> (r: Self)
        ensures
            r.root() == None::<EntityRef>,
            r.buttons() == (None::<EntityRef>, None::<EntityRef>),
            r.title_text() == title@,
            r.details_text() == details@,
            r.button_texts() == (Seq::<char>::empty(), "OK"@),
            r.actions() == (None::<ButtonAction<A>>, Some(ButtonAction::<A>::Pop)),
    {
        Self::new(title, Some(details), None, Some(String::from_str("OK")), None, Some(ButtonAction::Pop))
    }

    /// Keeps the entities found when the menu starts, hands back the texts
    /// that its labels are to show, each with the id of its label (the
    /// title, the details, and the texts of the two buttons), and shows it.
    pub fn on_start(&mut self, root: Option<EntityRef>, button_1: Option<EntityRef>, button_2: Option<EntityRef>) -> (r: (Vec<(String, String)>, VisibilityUpdate))
        ensures
            final(self).root() == root,
            final(self).buttons() == (button_1, button_2),
            final(self).title_text() == old(self).title_text(),
            final(self).details_text() == old(self).details_text(),
            final(self).button_texts() == old(self).button_texts(),
            final(self).actions() == old(self).actions(),
            r.0@.len() == 4,
            r.0@[0].0@ == LABEL_TITLE_ID@ && r.0@[0].1@ == old(self).title_text(),
            r.0@[1].0@ == LABEL_DETAILS_ID@ && r.0@[1].1@ == old(self).details_text(),
            r.0@[2].0@ == BUTTON_1_TEXT_ID@ && r.0@[2].1@ == old(self).button_texts().0,
            r.0@[3].0@ == BUTTON_2_TEXT_ID@ && r.0@[3].1@ == old(self).button_texts().1,
            r.1 == visibility_of(root, true),
    {
        self.root = root;
        self.button_1 = button_1;
        self.button_2 = button_2;
        let texts = self.label_texts();
        (texts, self.set_visibility(true))
    }

    /// The texts that the labels show, each with the id of its label: the
    /// title, the details, and the texts of the two buttons.
    pub fn label_texts(&self) -> (r: Vec<(String, String)>)
        ensures
            r@.len() == 4,
            r@[0].0@ == LABEL_TITLE_ID@ && r@[0].1@ == self.title_text(),
            r@[1].0@ == LABEL_DETAILS_ID@ && r@[1].1@ == self.details_text(),
            r@[2].0@ == BUTTON_1_TEXT_ID@ && r@[2].1@ == self.button_texts().0,
            r@[3].0@ == BUTTON_2_TEXT_ID@ && r@[3].1@ == self.button_texts().1,
    {
        let mut r: Vec<(String, String)> = Vec::new();
        r.push((String::from_str(LABEL_TITLE_ID), String::from_str(self.title)));
        r.push((String::from_str(LABEL_DETAILS_ID), String::from_str(self.details.as_str())));
        r.push((String::from_str(BUTTON_1_TEXT_ID), String::from_str(self.button_1_text.as_str())));
        r.push((String::from_str(BUTTON_2_TEXT_ID), String::from_str(self.button_2_text.as_str())));
        r
    }

    /// Hides the menu when it is paused.
    pub fn on_pause(&self) -> (r: VisibilityUpdate)
        ensures
            r == visibility_of(self.root(), false),
    {
        self.set_visibility(false)
    }

    /// Shows the menu again when it resumes.
    pub fn on_resume(&self) -> (r: VisibilityUpdate)
        ensures
            r == visibility_of(self.root(), true),
    {
        self.set_visibility(true)
    }

    /// Forgets the buttons and hides the menu when it stops.
    pub fn on_stop(&mut self) -> (r: VisibilityUpdate)
        ensures
            final(self).root() == old(self).root(),
            final(self).buttons() == (None::<EntityRef>, None::<EntityRef>),
            final(self).title_text() == old(self).title_text(),
            final(self).details_text() == old(self).details_text(),
            final(self).button_texts() == old(self).button_texts(),
            final(self).actions() == old(self).actions(),
            r == visibility_of(old(self).root(), false),
    {
        self.button_1 = None;
        self.button_2 = None;
        self.set_visibility(false)
    }

    /// What the notification does with `input`: `Some(ButtonAction::Pop)`
    /// closes it, `Some(ButtonAction::Run(a))` runs `a`, `None` does nothing.
    pub fn handle_event(&self, input: UiInput) -> (r: Option<ButtonAction<A>>)
        ensures
            r == notify_outcome(input, self.buttons().0, self.buttons().1, self.actions().0, self.actions().1),
    {
        match input {
            UiInput::Escape => Some(ButtonAction::Pop),
            UiInput::Click(target) => {
                if same_entity(self.button_1, target) {
                    if let Some(action) = self.on_button_1 {
                        return Some(action);
                    }
                }
                if same_entity(self.button_2, target) {
                    if let Some(action) = self.on_button_2 {
                        return Some(action);
                    }
                }
                None
            },
            UiInput::Other => None,
        }
    }
}

impl<A: Copy> UiState for NotifyState<A> {
    open spec fn root(&self) -> Option<EntityRef> {
        self.root_entity()
    }

    fn get_root(&self) -> (r: Option<EntityRef>) {
        self.root
    }
}

impl<A> NotifyState<A> {
    /// The root entity, once it was found.
    pub closed spec fn root_entity(&self) -> Option<EntityRef> {
        self.root
    }
}

/// Whether `entity` is the found entity `target`.
pub fn same_entity(entity: Option<EntityRef>, target: EntityRef) -> (r: bool)
    ensures
        r == (entity == Some(target)),
{
    match entity {
        Some(e) => e == target,
        None => false,
    }
}

/// The text of `text`, or a new empty text.
fn text_or_new(text: Option<String>) -> (r: String)
    ensures
        r@ == text_or_empty(text),
{
    match text {
        Some(t) => t,
        None => String::new(),
    }
}

} // verus!

verus! {

/// Escape always closes a notification, and other events than escape and
/// clicks do nothing.
pub proof fn lemma_notify_escape_closes<A>(
    buttons: (Option<EntityRef>, Option<EntityRef>),
    actions: (Option<ButtonAction<A>>, Option<ButtonAction<A>>),
)
    ensures
        notify_outcome(UiInput::Escape, buttons.0, buttons.1, actions.0, actions.1) == Some(
            ButtonAction::<A>::Pop,
        ),
        notify_outcome(UiInput::Other, buttons.0, buttons.1, actions.0, actions.1) == None::<
            ButtonAction<A>,
        >,
{
}

/// The "OK" button of an error notification closes it.
pub proof fn lemma_error_ok_closes<A>(button_1: Option<EntityRef>, target: EntityRef)
    ensures
        notify_outcome(
            UiInput::Click(target),
            button_1,
            Some(target),
            None::<ButtonAction<A>>,
            Some(ButtonAction::<A>::Pop),
        ) == Some(ButtonAction::<A>::Pop),
{
}

/// The first button of a confirmation runs the confirming action; its
/// "Cancel" button, where it is another entity, closes the notification.
pub proof fn lemma_confirm_buttons<A>(button_1: EntityRef, button_2: EntityRef, on_confirm: A)
    ensures
        notify_outcome(
            UiInput::Click(button_1),
            Some(button_1),
            Some(button_2),
            Some(ButtonAction::Run(on_confirm)),
            Some(ButtonAction::<A>::Pop),
        ) == Some(ButtonAction::Run(on_confirm)),
        button_1 != button_2 ==> notify_outcome(
            UiInput::Click(button_2),
            Some(button_1),
            Some(button_2),
            Some(ButtonAction::Run(on_confirm)),
            Some(ButtonAction::<A>::Pop),
        ) == Some(ButtonAction::<A>::Pop),
{
}

/// Once the notification stopped, a click does nothing.
pub proof fn lemma_notify_clicks_after_stop_do_nothing<A>(
    target: EntityRef,
    actions: (Option<ButtonAction<A>>, Option<ButtonAction<A>>),
)
    ensures
        notify_outcome(UiInput::Click(target), None, None, actions.0, actions.1) == None::<ButtonAction<A>>,
{
}

} // verus!

verus! {

/// A click on a button that has an action answers with that action: the
/// first button's where it has one, else the second button's; a click on a
/// button without an action, or on no button, does nothing.
pub proof fn lemma_buttons_run_their_own_actions<A>(
    target: EntityRef,
    button_1: Option<EntityRef>,
    button_2: Option<EntityRef>,
    on_button_1: Option<ButtonAction<A>>,
    on_button_2: Option<ButtonAction<A>>,
)
    ensures
        button_1 == Some(target) && on_button_1 is Some ==> notify_outcome(
            UiInput::Click(target),
            button_1,
            button_2,
            on_button_1,
            on_button_2,
        ) == on_button_1,
        !(button_1 == Some(target) && on_button_1 is Some) && button_2 == Some(target) ==> notify_outcome(
            UiInput::Click(target),
            button_1,
            button_2,
            on_button_1,
            on_button_2,
        ) == on_button_2,
        button_1 != Some(target) && button_2 != Some(target) ==> (notify_outcome(
            UiInput::Click(target),
            button_1,
            button_2,
            on_button_1,
            on_button_2,
        ) is None),
{
}

} // verus!

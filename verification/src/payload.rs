//! The payload translator: a pure mapping from a snapshot of the presence
//! form to the activity payload the IPC transport sends, dropping incomplete
//! action buttons and mapping the category choice onto the transport's
//! category enumeration.

use vstd::prelude::*;

verus! {

use crate::form::{
    ActivityButton,
    ActivityTypeChoice,
    Asset,
    ButtonView,
    FormView,
    PresenceForm,
};

/// The transport's activity category. It mirrors the user-facing
/// `ActivityTypeChoice` one-to-one; the two enumerations are kept apart so
/// that the wire shape is named explicitly.
#[derive(Debug, Clone, Copy, PartialEq, Eq, Structural)]
pub enum ActivityType {
    Playing,
    Listening,
    Watching,
    Competing,
}

/// The fixed, total mapping of a category choice onto the transport's
/// category.
pub open spec fn choice_to_transport(c: ActivityTypeChoice) -> ActivityType {
    match c {
        ActivityTypeChoice::Playing => ActivityType::Playing,
        ActivityTypeChoice::Listening => ActivityType::Listening,
        ActivityTypeChoice::Watching => ActivityType::Watching,
        ActivityTypeChoice::Competing => ActivityType::Competing,
    }
}

/// The inverse of `choice_to_transport`.
pub open spec fn transport_to_choice(t: ActivityType) -> ActivityTypeChoice {
    match t {
        ActivityType::Playing => ActivityTypeChoice::Playing,
        ActivityType::Listening => ActivityTypeChoice::Listening,
        ActivityType::Watching => ActivityTypeChoice::Watching,
        ActivityType::Competing => ActivityTypeChoice::Competing,
    }
}

impl From<ActivityTypeChoice> for ActivityType {
    fn from(val: ActivityTypeChoice) -> (t: ActivityType)
        ensures
            t == choice_to_transport(val),
    {
        match val {
            ActivityTypeChoice::Playing => ActivityType::Playing,
            ActivityTypeChoice::Listening => ActivityType::Listening,
            ActivityTypeChoice::Watching => ActivityType::Watching,
            ActivityTypeChoice::Competing => ActivityType::Competing,
        }
    }
}

impl vstd::std_specs::convert::FromSpecImpl<ActivityTypeChoice> for ActivityType {
    open spec fn obeys_from_spec() -> bool {
        true
    }

    open spec fn from_spec(val: ActivityTypeChoice) -> ActivityType {
        choice_to_transport(val)
    }
}

impl From<ActivityType> for ActivityTypeChoice {
    fn from(val: ActivityType) -> (c: ActivityTypeChoice)
        ensures
            c == transport_to_choice(val),
    {
        match val {
            ActivityType::Playing => ActivityTypeChoice::Playing,
            ActivityType::Listening => ActivityTypeChoice::Listening,
            ActivityType::Watching => ActivityTypeChoice::Watching,
            ActivityType::Competing => ActivityTypeChoice::Competing,
        }
    }
}

impl vstd::std_specs::convert::FromSpecImpl<ActivityType> for ActivityTypeChoice {
    open spec fn obeys_from_spec() -> bool {
        true
    }

    open spec fn from_spec(val: ActivityType) -> ActivityTypeChoice {
        transport_to_choice(val)
    }
}

/// The transmittable activity payload: a transient projection of the form,
/// recomputed fresh on every publish. Empty text fields mean "unset"; the
/// button list holds only the eligible buttons, in slot order.
#[derive(Debug, Clone, PartialEq)]
pub struct ActivityPayload {
    pub state: String,
    pub details: String,
    pub assets: Asset,
    pub buttons: Vec<ActivityButton>,
    pub activity_type: ActivityType,
}

/// Mathematical value of an `ActivityPayload`.
#[verifier::ext_equal]
pub struct PayloadView {
    pub state: Seq<char>,
    pub details: Seq<char>,
    pub assets: crate::form::AssetView,
    pub buttons: Seq<ButtonView>,
    pub activity_type: ActivityType,
}

impl View for ActivityPayload {
    type V = PayloadView;

    open spec fn view(&self) -> PayloadView {
        PayloadView {
            state: self.state@,
            details: self.details@,
            assets: self.assets@,
            buttons: self.buttons@.map(|i: int, b: ActivityButton| b@),
            activity_type: self.activity_type,
        }
    }
}

/// A button is eligible for publication exactly when its label and its URL
/// are both non-empty.
pub open spec fn spec_eligible(b: ButtonView) -> bool {
    b.label.len() > 0 && b.url.len() > 0
}

/// The eligible buttons of a slot sequence, in order, ineligible slots
/// silently omitted.
pub open spec fn spec_eligible_buttons(bs: Seq<ButtonView>) -> Seq<ButtonView> {
    bs.filter(|b: ButtonView| spec_eligible(b))
}

/// What one publish sends: the form's text and assets verbatim (empty means
/// "unset"), the eligible buttons only, and the translated category.
pub open spec fn spec_translate(f: FormView) -> PayloadView {
    PayloadView {
        state: f.state,
        details: f.details,
        assets: f.assets,
        buttons: spec_eligible_buttons(f.buttons),
        activity_type: choice_to_transport(f.selected),
    }
}

impl ActivityButton {
    /// Whether this button would be included in a published payload.
    pub fn eligible(&self) -> (r: bool)
        ensures
            r == spec_eligible(self@),
    {
        !self.label.as_str().is_empty() && !self.url.as_str().is_empty()
    }

    fn duplicate(&self) -> (b: ActivityButton)
        ensures
            b == *self,
    {
        ActivityButton { label: self.label.clone(), url: self.url.clone() }
    }
}

impl Asset {
    fn duplicate(&self) -> (a: Asset)
        ensures
            a == *self,
    {
        Asset {
            large_image: self.large_image.clone(),
            large_text: self.large_text.clone(),
            small_image: self.small_image.clone(),
            small_text: self.small_text.clone(),
        }
    }
}

impl PresenceForm {
    /// Translate a snapshot of the form into the payload to transmit. The
    /// translation is pure: the form is only read, and the result is exactly
    /// `spec_translate` of the form's value, so two translations of the same
    /// snapshot agree.
    pub fn translate(&self) -> (p: ActivityPayload)
        ensures
            p@ == spec_translate(self@),
    {
        let mut buttons: Vec<ActivityButton> = Vec::new();
        if self.button_one.eligible() {
            buttons.push(self.button_one.duplicate());
        }
        if self.button_two.eligible() {
            buttons.push(self.button_two.duplicate());
        }
        let p = ActivityPayload {
            state: self.state.clone(),
            details: self.details.clone(),
            assets: self.assets.duplicate(),
            buttons,
            activity_type: ActivityType::from(self.selected),
        };
        proof {
            reveal_with_fuel(Seq::<_>::filter, 4);
            let bs = self@.buttons;
            assert(bs.drop_last() =~= seq![self.button_one@]);
            assert(seq![self.button_one@].drop_last() =~= Seq::<ButtonView>::empty());
            assert(p@.buttons =~= spec_eligible_buttons(bs));
            assert(p@ =~= spec_translate(self@));
        }
        p
    }
}

/// Law: translation keeps a button if and only if it is eligible — a slot
/// with a non-empty label but an empty URL is excluded from the payload's
/// button list, and a slot with both fields non-empty is included verbatim.
pub proof fn lemma_translate_filters_buttons(f: FormView, i: int)
    requires
        0 <= i < f.buttons.len(),
    ensures
        spec_eligible(f.buttons[i]) ==> spec_translate(f).buttons.contains(f.buttons[i]),
        !spec_eligible(f.buttons[i]) ==> !spec_translate(f).buttons.contains(f.buttons[i]),
{
    let pred = |b: ButtonView| spec_eligible(b);
    let kept = f.buttons.filter(pred);
    if spec_eligible(f.buttons[i]) {
        f.buttons.lemma_filter_contains(pred, i);
    }
    if kept.contains(f.buttons[i]) {
        let j = choose|j: int| 0 <= j < kept.len() && kept[j] == f.buttons[i];
        f.buttons.lemma_filter_pred(pred, j);
    }
}

/// Law: translation is deterministic — any two payload values obtained from
/// the same form snapshot are equal. Together with `translate` taking the
/// form by shared reference, translation is pure.
pub proof fn lemma_translate_deterministic(f: FormView, p1: PayloadView, p2: PayloadView)
    requires
        p1 == spec_translate(f),
        p2 == spec_translate(f),
    ensures
        p1 == p2,
{
}

/// Law: the category mapping is total and bijective — every choice has
/// exactly one transport category, distinct choices have distinct
/// categories, and mapping back restores the choice.
pub proof fn lemma_category_bijection()
    ensures
        forall|c: ActivityTypeChoice|
            transport_to_choice(#[trigger] choice_to_transport(c)) == c,
        forall|t: ActivityType| choice_to_transport(#[trigger] transport_to_choice(t)) == t,
        forall|c1: ActivityTypeChoice, c2: ActivityTypeChoice|
            #[trigger] choice_to_transport(c1) == #[trigger] choice_to_transport(c2) ==> c1 == c2,
{
}

} // verus!

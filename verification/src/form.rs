//! The presence form: the single mutable aggregate of the library, and the
//! reducer that applies one discrete edit event at a time.

use vstd::prelude::*;

verus! {

/// The four imagery references of a presence: a key and a tooltip for the
/// large image, and the same pair for the small image. Any subset may be
/// empty; the transport treats an empty field as "unset".
#[derive(Debug, Clone, PartialEq)]
pub struct Asset {
    pub large_image: String,
    pub large_text: String,
    pub small_image: String,
    pub small_text: String,
}

/// Mathematical value of an `Asset`: each field as its character sequence.
#[verifier::ext_equal]
pub struct AssetView {
    pub large_image: Seq<char>,
    pub large_text: Seq<char>,
    pub small_image: Seq<char>,
    pub small_text: Seq<char>,
}

impl AssetView {
    /// The all-default asset bundle: every field empty.
    pub open spec fn empty() -> AssetView {
        AssetView {
            large_image: Seq::empty(),
            large_text: Seq::empty(),
            small_image: Seq::empty(),
            small_text: Seq::empty(),
        }
    }
}

impl View for Asset {
    type V = AssetView;

    open spec fn view(&self) -> AssetView {
        AssetView {
            large_image: self.large_image@,
            large_text: self.large_text@,
            small_image: self.small_image@,
            small_text: self.small_text@,
        }
    }
}

impl Default for Asset {
    fn default() -> (a: Asset)
        ensures
            a@ == AssetView::empty(),
    {
        Asset {
            large_image: String::new(),
            large_text: String::new(),
            small_image: String::new(),
            small_text: String::new(),
        }
    }
}

/// An action button: a label and a target URL. Both may be edited freely;
/// only a button with both fields non-empty is published.
#[derive(Debug, Clone, PartialEq)]
pub struct ActivityButton {
    pub label: String,
    pub url: String,
}

/// Mathematical value of an `ActivityButton`.
#[verifier::ext_equal]
pub struct ButtonView {
    pub label: Seq<char>,
    pub url: Seq<char>,
}

impl ButtonView {
    /// The all-default button: label and URL empty.
    pub open spec fn empty() -> ButtonView {
        ButtonView { label: Seq::empty(), url: Seq::empty() }
    }
}

impl View for ActivityButton {
    type V = ButtonView;

    open spec fn view(&self) -> ButtonView {
        ButtonView { label: self.label@, url: self.url@ }
    }
}

impl Default for ActivityButton {
    fn default() -> (b: ActivityButton)
        ensures
            b@ == ButtonView::empty(),
    {
        ActivityButton { label: String::new(), url: String::new() }
    }
}

/// The activity category the user picks in the selector. Defaults to
/// `Playing`; maps one-to-one onto the transport's category enumeration.
#[derive(Debug, Clone, Copy, PartialEq, Eq, Structural)]
pub enum ActivityTypeChoice {
    Playing,
    Listening,
    Watching,
    Competing,
}

impl Default for ActivityTypeChoice {
    fn default() -> (c: ActivityTypeChoice)
        ensures
            c == ActivityTypeChoice::Playing,
    {
        ActivityTypeChoice::Playing
    }
}

impl ActivityTypeChoice {
    /// The printable name of the choice, as the selector shows it.
    pub open spec fn spec_name(self) -> Seq<char> {
        match self {
            ActivityTypeChoice::Playing => "Playing"@,
            ActivityTypeChoice::Listening => "Listening"@,
            ActivityTypeChoice::Watching => "Watching"@,
            ActivityTypeChoice::Competing => "Competing"@,
        }
    }

    /// Readable name of the choice, for display beside the selector.
    pub fn name(&self) -> (s: String)
        ensures
            s@ == self.spec_name(),
    {
        match self {
            ActivityTypeChoice::Playing => "Playing".to_owned(),
            ActivityTypeChoice::Listening => "Listening".to_owned(),
            ActivityTypeChoice::Watching => "Watching".to_owned(),
            ActivityTypeChoice::Competing => "Competing".to_owned(),
        }
    }
}

/// Which of the four asset fields an edit event addresses. The set is closed:
/// it is generated alongside the form layout, so no unrecognized name exists.
#[derive(Debug, Clone, Copy, PartialEq, Eq, Structural)]
pub enum AssetField {
    LargeImage,
    LargeText,
    SmallImage,
    SmallText,
}

/// Which field of which button slot an edit event addresses.
#[derive(Debug, Clone, Copy, PartialEq, Eq, Structural)]
pub enum ButtonField {
    LabelOne,
    UrlOne,
    LabelTwo,
    UrlTwo,
}

/// One discrete edit event, delivered by the hosting UI. `Start` is the
/// publish trigger: it leaves the form untouched; the hosting loop reacts to
/// it by translating a snapshot and handing the payload to the transport.
#[derive(Debug, Clone)]
pub enum Message {
    ChangeState(String),
    ChangeDetails(String),
    ChangeAssets(AssetField, String),
    ChangeButtons(ButtonField, String),
    Select(ActivityTypeChoice),
    Dismiss,
    Expand,
    Start,
}

/// Mathematical value of a `Message`: the same variants over character
/// sequences.
pub enum MessageView {
    ChangeState(Seq<char>),
    ChangeDetails(Seq<char>),
    ChangeAssets(AssetField, Seq<char>),
    ChangeButtons(ButtonField, Seq<char>),
    Select(ActivityTypeChoice),
    Dismiss,
    Expand,
    Start,
}

impl View for Message {
    type V = MessageView;

    open spec fn view(&self) -> MessageView {
        match self {
            Message::ChangeState(s) => MessageView::ChangeState(s@),
            Message::ChangeDetails(s) => MessageView::ChangeDetails(s@),
            Message::ChangeAssets(f, s) => MessageView::ChangeAssets(*f, s@),
            Message::ChangeButtons(f, s) => MessageView::ChangeButtons(*f, s@),
            Message::Select(c) => MessageView::Select(*c),
            Message::Dismiss => MessageView::Dismiss,
            Message::Expand => MessageView::Expand,
            Message::Start => MessageView::Start,
        }
    }
}

/// The editable presence form: title ("state") and details text, the asset
/// bundle, two fixed button slots, the selected category, and the UI-only
/// flag for whether the category selector is expanded.
#[derive(Debug, Clone, PartialEq)]
pub struct PresenceForm {
    pub state: String,
    pub details: String,
    pub assets: Asset,
    pub button_one: ActivityButton,
    pub button_two: ActivityButton,
    pub selected: ActivityTypeChoice,
    pub expanded: bool,
}

/// Mathematical value of a `PresenceForm`. The two button slots appear as an
/// ordered sequence of length two.
#[verifier::ext_equal]
pub struct FormView {
    pub state: Seq<char>,
    pub details: Seq<char>,
    pub assets: AssetView,
    pub buttons: Seq<ButtonView>,
    pub selected: ActivityTypeChoice,
    pub expanded: bool,
}

impl FormView {
    /// The startup form: every text field empty, category `Playing`,
    /// selector collapsed.
    pub open spec fn init() -> FormView {
        FormView {
            state: Seq::empty(),
            details: Seq::empty(),
            assets: AssetView::empty(),
            buttons: seq![ButtonView::empty(), ButtonView::empty()],
            selected: ActivityTypeChoice::Playing,
            expanded: false,
        }
    }
}

impl View for PresenceForm {
    type V = FormView;

    open spec fn view(&self) -> FormView {
        FormView {
            state: self.state@,
            details: self.details@,
            assets: self.assets@,
            buttons: seq![self.button_one@, self.button_two@],
            selected: self.selected,
            expanded: self.expanded,
        }
    }
}

impl Default for PresenceForm {
    fn default() -> (f: PresenceForm)
        ensures
            f@ == FormView::init(),
    {
        let f = PresenceForm {
            state: String::new(),
            details: String::new(),
            assets: Asset::default(),
            button_one: ActivityButton::default(),
            button_two: ActivityButton::default(),
            selected: ActivityTypeChoice::Playing,
            expanded: false,
        };
        proof {
            assert(f@ =~= FormView::init());
        }
        f
    }
}

/// Replace exactly one asset field, leaving the other three as they were.
pub open spec fn spec_set_asset(a: AssetView, field: AssetField, s: Seq<char>) -> AssetView {
    match field {
        AssetField::LargeImage => AssetView { large_image: s, ..a },
        AssetField::LargeText => AssetView { large_text: s, ..a },
        AssetField::SmallImage => AssetView { small_image: s, ..a },
        AssetField::SmallText => AssetView { small_text: s, ..a },
    }
}

/// Replace exactly one field of exactly one button slot.
pub open spec fn spec_set_button(bs: Seq<ButtonView>, field: ButtonField, s: Seq<char>) -> Seq<
    ButtonView,
> {
    match field {
        ButtonField::LabelOne => bs.update(0, ButtonView { label: s, ..bs[0] }),
        ButtonField::UrlOne => bs.update(0, ButtonView { url: s, ..bs[0] }),
        ButtonField::LabelTwo => bs.update(1, ButtonView { label: s, ..bs[1] }),
        ButtonField::UrlTwo => bs.update(1, ButtonView { url: s, ..bs[1] }),
    }
}

/// The transition table of the form: the next form value after one event.
/// Every operation is total; `Select` and `Dismiss` force the selector
/// closed, `Expand` flips it, and the publish trigger `Start` changes
/// nothing.
pub open spec fn spec_apply(f: FormView, e: MessageView) -> FormView {
    match e {
        MessageView::ChangeState(s) => FormView { state: s, ..f },
        MessageView::ChangeDetails(s) => FormView { details: s, ..f },
        MessageView::ChangeAssets(field, s) => FormView {
            assets: spec_set_asset(f.assets, field, s),
            ..f
        },
        MessageView::ChangeButtons(field, s) => FormView {
            buttons: spec_set_button(f.buttons, field, s),
            ..f
        },
        MessageView::Select(c) => FormView { selected: c, expanded: false, ..f },
        MessageView::Dismiss => FormView { expanded: false, ..f },
        MessageView::Expand => FormView { expanded: !f.expanded, ..f },
        MessageView::Start => f,
    }
}

impl PresenceForm {
    /// Apply one edit event atomically. The new form value is exactly what
    /// the transition table `spec_apply` gives for the old value and the
    /// event; no event can fail.
    pub fn apply(&mut self, event: Message)
        ensures
            final(self)@ == spec_apply(old(self)@, event@),
    {
        match event {
            Message::ChangeState(s) => {
                self.state = s;
            },
            Message::ChangeDetails(s) => {
                self.details = s;
            },
            Message::ChangeAssets(field, s) => {
                let ghost sv = s@;
                match field {
                    AssetField::LargeImage => {
                        self.assets.large_image = s;
                    },
                    AssetField::LargeText => {
                        self.assets.large_text = s;
                    },
                    AssetField::SmallImage => {
                        self.assets.small_image = s;
                    },
                    AssetField::SmallText => {
                        self.assets.small_text = s;
                    },
                }
                proof {
                    assert(self@ =~= spec_apply(
                        old(self)@,
                        MessageView::ChangeAssets(field, sv),
                    ));
                }
            },
            Message::ChangeButtons(field, s) => {
                let ghost sv = s@;
                match field {
                    ButtonField::LabelOne => {
                        self.button_one.label = s;
                    },
                    ButtonField::UrlOne => {
                        self.button_one.url = s;
                    },
                    ButtonField::LabelTwo => {
                        self.button_two.label = s;
                    },
                    ButtonField::UrlTwo => {
                        self.button_two.url = s;
                    },
                }
                proof {
                    assert(self@.buttons =~= spec_apply(
                        old(self)@,
                        MessageView::ChangeButtons(field, sv),
                    ).buttons);
                    assert(self@ =~= spec_apply(
                        old(self)@,
                        MessageView::ChangeButtons(field, sv),
                    ));
                }
            },
            Message::Select(c) => {
                self.selected = c;
                self.expanded = false;
            },
            Message::Dismiss => {
                self.expanded = false;
            },
            Message::Expand => {
                self.expanded = !self.expanded;
            },
            Message::Start => {},
        }
    }
}

/// Law: a single-field update lands verbatim in that field — the title after
/// `ChangeState(s)` is `s`, the details after `ChangeDetails(s)` are `s`, and
/// each asset field after the event addressing it is the text set, empty
/// strings included.
pub proof fn lemma_single_field_update(f: FormView, s: Seq<char>)
    ensures
        spec_apply(f, MessageView::ChangeState(s)).state == s,
        spec_apply(f, MessageView::ChangeDetails(s)).details == s,
        spec_apply(f, MessageView::ChangeAssets(AssetField::LargeImage, s)).assets.large_image
            == s,
        spec_apply(f, MessageView::ChangeAssets(AssetField::LargeText, s)).assets.large_text == s,
        spec_apply(f, MessageView::ChangeAssets(AssetField::SmallImage, s)).assets.small_image
            == s,
        spec_apply(f, MessageView::ChangeAssets(AssetField::SmallText, s)).assets.small_text == s,
{
}

/// Law: selecting a category records that category and always closes the
/// selector.
pub proof fn lemma_select_closes_selector(f: FormView, c: ActivityTypeChoice)
    ensures
        spec_apply(f, MessageView::Select(c)).selected == c,
        !spec_apply(f, MessageView::Select(c)).expanded,
{
}

/// Law: toggling the selector twice restores the expansion flag.
pub proof fn lemma_double_toggle_is_identity(f: FormView)
    ensures
        spec_apply(spec_apply(f, MessageView::Expand), MessageView::Expand).expanded == f.expanded,
{
}

} // verus!

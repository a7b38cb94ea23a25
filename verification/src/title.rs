//! A side effect that controls the title of the document.
//!
//! A title provider is the scope of the titles. A title component registers
//! one title in it. Only the value of the title registered last is shown.
use crate::collections::SideEffects;
use std::rc::Rc;
use vstd::prelude::*;

verus! {

/// One registered title. Its view is the text.
#[derive(Debug)]
pub struct TitleSideEffect {
    value: String,
}

impl View for TitleSideEffect {
    type V = Seq<char>;

    closed spec fn view(&self) -> Seq<char> {
        self.value@
    }
}

impl Clone for TitleSideEffect {
    fn clone(&self) -> (copy: Self)
        ensures
            copy@ == self@,
    {
        Self { value: self.value.clone() }
    }
}

impl vstd::std_specs::cmp::PartialEqSpecImpl for TitleSideEffect {
    open spec fn obeys_eq_spec() -> bool {
        true
    }

    open spec fn eq_spec(&self, other: &Self) -> bool {
        self@ == other@
    }
}

impl PartialEq for TitleSideEffect {
    fn eq(&self, other: &Self) -> (same: bool) {
        self.value == other.value
    }
}

impl TitleSideEffect {
    /// The text of the title.
    pub fn value(&self) -> (text: &str)
        ensures
            text@ == self@,
    {
        self.value.as_str()
    }
}

/// The Properties for Title Provider
pub struct TitleProviderProps<F: Fn(&str) -> String> {
    /// The default title.
    pub default_title: String,
    /// A Function to format title.
    pub format_title: F,
}

/// The Title Provider
///
/// This is what a title provider does whenever the titles change: it picks
/// the text to show as the title of the document. Where titles are
/// registered, that is the last one, passed through `format_title`; where
/// none is, it is `default_title` as it stands.
pub fn title_provider<F: Fn(&str) -> String>(
    props: &TitleProviderProps<F>,
    titles: &SideEffects<TitleSideEffect>,
) -> (title: String)
    requires
        forall|text: &str| call_requires(props.format_title, (text,)),
    ensures
        titles@.len() == 0 ==> title@ == props.default_title@,
        titles@.len() > 0 ==> exists|text: &str|
            text@ == titles@.last()@ && call_ensures(props.format_title, (text,), title),
{
    let all: &[Rc<TitleSideEffect>] = titles;
    if all.len() > 0 {
        let text: &str = all[all.len() - 1].value();
        (props.format_title)(text)
    } else {
        props.default_title.clone()
    }
}

/// The properties of a title component.
#[derive(Debug)]
pub struct TitleProps {
    pub value: String,
}

impl Clone for TitleProps {
    fn clone(&self) -> (copy: Self)
        ensures
            copy.value@ == self.value@,
    {
        Self { value: self.value.clone() }
    }
}

impl vstd::std_specs::cmp::PartialEqSpecImpl for TitleProps {
    open spec fn obeys_eq_spec() -> bool {
        true
    }

    open spec fn eq_spec(&self, other: &Self) -> bool {
        self.value@ == other.value@
    }
}

impl PartialEq for TitleProps {
    fn eq(&self, other: &Self) -> (same: bool) {
        self.value == other.value
    }
}

/// Set a title
///
/// The side effect that a title component registers: the text of its
/// properties.
pub fn title(props: &TitleProps) -> (effect: Rc<TitleSideEffect>)
    ensures
        effect@ == props.value@,
{
    Rc::new(TitleSideEffect { value: props.value.clone() })
}

} // verus!

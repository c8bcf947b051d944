use std::ops::RangeInclusive;
use vstd::prelude::*;

pub mod lpicklist;
pub mod lslider;

verus! {

/// The text size of the button that stands beside a label: five eighths
/// of the label's, rounded down.
pub fn button_text_size(text_size: u16) -> (size: u16)
    requires
        text_size * 5 <= u16::MAX,
    ensures
        size == text_size * 5 / 8,
{
    text_size * 5 / 8
}

/// The height of the button that stands beside a label: five quarters of
/// the label's text size, rounded down.
pub fn button_height(text_size: u16) -> (height: u16)
    requires
        text_size * 5 <= u16::MAX,
    ensures
        height == text_size * 5 / 4,
{
    text_size * 5 / 4
}

/// The number of decimals with which a value is shown: none, one, or two
/// for any larger setting.
pub fn shown_decimals(decimals: u8) -> (shown: u8)
    ensures
        shown == if decimals <= 1 {
            decimals
        } else {
            2
        },
{
    if decimals <= 1 {
        decimals
    } else {
        2
    }
}

/// The settings of a labelled slider with a read-out of its value, gathered
/// before the widget is built.
pub struct SliderBuilder<T, M, F> {
    pub label: String,
    pub value: T,
    pub message: M,
    pub release: F,
    pub random: Option<F>,
    pub range: RangeInclusive<T>,
    pub step: T,
    pub text_size: u16,
    pub width: u16,
    pub spacing: u16,
    pub decimals: u8,
}

impl<T: Copy, M: Fn(T) -> F, F> SliderBuilder<T, M, F> {
    /// A slider over the range from `zero` to `one`, both included, that
    /// moves in steps of `one`; text of size 15, 150 wide, rows 5 apart, the
    /// value shown with one decimal.
    pub fn new(
        label: String,
        message: M,
        release: F,
        random: Option<F>,
        value: T,
        zero: T,
        one: T,
    ) -> (b: Self)
        ensures
            b.label == label,
            b.value == value,
            b.message == message,
            b.release == release,
            b.random == random,
            b.range@.start == zero,
            b.range@.end == one,
            !b.range@.exhausted,
            b.step == one,
            b.text_size == 15,
            b.width == 150,
            b.spacing == 5,
            b.decimals == 1,
    {
        Self {
            label,
            value,
            message,
            release,
            random,
            range: RangeInclusive::new(zero, one),
            step: one,
            text_size: 15,
            width: 150,
            spacing: 5,
            decimals: 1,
        }
    }

    pub fn step(self, step: T) -> (b: Self)
        ensures
            b == (SliderBuilder { step, ..self }),
    {
        SliderBuilder { step, ..self }
    }

    pub fn range(self, range: RangeInclusive<T>) -> (b: Self)
        ensures
            b == (SliderBuilder { range, ..self }),
    {
        SliderBuilder { range, ..self }
    }

    pub fn text_size(self, size: u16) -> (b: Self)
        ensures
            b == (SliderBuilder { text_size: size, ..self }),
    {
        SliderBuilder { text_size: size, ..self }
    }

    pub fn width(self, width: u16) -> (b: Self)
        ensures
            b == (SliderBuilder { width, ..self }),
    {
        SliderBuilder { width, ..self }
    }

    pub fn spacing(self, spacing: u16) -> (b: Self)
        ensures
            b == (SliderBuilder { spacing, ..self }),
    {
        SliderBuilder { spacing, ..self }
    }

    pub fn decimals(self, decimals: u8) -> (b: Self)
        ensures
            b == (SliderBuilder { decimals, ..self }),
    {
        SliderBuilder { decimals, ..self }
    }
}

/// The settings of a labelled pick list, gathered before the widget is
/// built.
pub struct PickListBuilder<T, M, F> {
    pub label: String,
    pub choices: Vec<T>,
    pub value: Option<T>,
    pub message: F,
    pub random: M,
    pub text_size: u16,
    pub width: u16,
    pub spacing: u16,
}

impl<T, M, F: Fn(T) -> M> PickListBuilder<T, M, F> {
    /// A pick list with text of size 15, 175 wide, rows 5 apart.
    pub fn new(label: String, choices: Vec<T>, value: Option<T>, message: F, random: M) -> (b:
        Self)
        ensures
            b == (PickListBuilder {
                label,
                choices,
                value,
                message,
                random,
                text_size: 15,
                width: 175,
                spacing: 5,
            }),
    {
        Self { label, choices, value, message, random, text_size: 15, width: 175, spacing: 5 }
    }

    pub fn text_size(self, size: u16) -> (b: Self)
        ensures
            b == (PickListBuilder { text_size: size, ..self }),
    {
        PickListBuilder { text_size: size, ..self }
    }

    pub fn width(self, width: u16) -> (b: Self)
        ensures
            b == (PickListBuilder { width, ..self }),
    {
        PickListBuilder { width, ..self }
    }

    pub fn spacing(self, spacing: u16) -> (b: Self)
        ensures
            b == (PickListBuilder { spacing, ..self }),
    {
        PickListBuilder { spacing, ..self }
    }
}

} // verus!

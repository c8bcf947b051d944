use std::ops::RangeInclusive;
use vstd::prelude::*;

verus! {

/// What a labelled slider reports.
#[derive(Debug, Clone)]
pub enum Event<T> {
    RandPressed,
    SliderChanged(T),
    SliderReleased,
}

/// A slider with a label, a read-out of its value and a button that asks
/// for a random value.
pub struct LSlider<T, Message, F> {
    pub label: String,
    pub value: T,
    pub range: RangeInclusive<T>,
    pub step: T,
    pub text_size: u16,
    pub width: u16,
    pub spacing: u16,
    pub decimals: u8,
    pub on_change: F,
    pub on_rand: Message,
    pub on_release: Message,
}

impl<T, Message: Clone, F: Fn(T) -> Message> LSlider<T, Message, F> {
    /// A slider with text of size 15, 150 wide, rows 5 apart, the value
    /// shown with one decimal.
    pub fn new(
        label: String,
        value: T,
        range: RangeInclusive<T>,
        step: T,
        on_change: F,
        on_rand: Message,
        on_release: Message,
    ) -> (s: Self)
        ensures
            s == (LSlider {
                label,
                value,
                range,
                step,
                text_size: 15,
                width: 150,
                spacing: 5,
                decimals: 1,
                on_change,
                on_rand,
                on_release,
            }),
    {
        Self {
            label,
            value,
            range,
            step,
            text_size: 15,
            width: 150,
            spacing: 5,
            decimals: 1,
            on_change,
            on_rand,
            on_release,
        }
    }

    pub fn text_size(self, text_size: u16) -> (s: Self)
        ensures
            s == (LSlider { text_size, ..self }),
    {
        Self { text_size, ..self }
    }

    pub fn width(self, width: u16) -> (s: Self)
        ensures
            s == (LSlider { width, ..self }),
    {
        Self { width, ..self }
    }

    pub fn spacing(self, spacing: u16) -> (s: Self)
        ensures
            s == (LSlider { spacing, ..self }),
    {
        Self { spacing, ..self }
    }

    pub fn decimals(self, decimals: u8) -> (s: Self)
        ensures
            s == (LSlider { decimals, ..self }),
    {
        Self { decimals, ..self }
    }

    /// The message that answers an event: a copy of `on_rand` when the
    /// button is pressed, what `on_change` makes of the new value when the
    /// slider moves, a copy of `on_release` when it is let go.
    pub fn update(&self, event: Event<T>) -> (message: Option<Message>)
        requires
            forall|v: T| call_requires(self.on_change, (v,)),
        ensures
            match event {
                Event::RandPressed => message matches Some(m) && cloned(self.on_rand, m),
                Event::SliderChanged(v) => message matches Some(m) && call_ensures(
                    self.on_change,
                    (v,),
                    m,
                ),
                Event::SliderReleased => message matches Some(m) && cloned(self.on_release, m),
            },
    {
        match event {
            Event::RandPressed => Some(self.on_rand.clone()),
            Event::SliderChanged(v) => Some((self.on_change)(v)),
            Event::SliderReleased => Some(self.on_release.clone()),
        }
    }
}

} // verus!

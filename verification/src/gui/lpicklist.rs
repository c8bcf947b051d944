use vstd::prelude::*;

verus! {

/// What a labelled pick list reports.
#[derive(Debug, Clone)]
pub enum Event<T> {
    RandPressed,
    PickListChanged(T),
}

/// A pick list with a label and a button that asks for a random choice.
pub struct LPickList<T, Message, F> {
    pub label: String,
    pub choices: Vec<T>,
    pub value: Option<T>,
    pub text_size: u16,
    pub width: u16,
    pub spacing: u16,
    pub on_change: F,
    pub on_rand: Message,
}

impl<T, Message: Clone, F: Fn(Option<T>) -> Message> LPickList<T, Message, F> {
    /// A pick list with text of size 15, 175 wide, rows 5 apart.
    pub fn new(
        label: String,
        choices: Vec<T>,
        value: Option<T>,
        on_change: F,
        on_rand: Message,
    ) -> (l: Self)
        ensures
            l == (LPickList {
                label,
                choices,
                value,
                text_size: 15,
                width: 175,
                spacing: 5,
                on_change,
                on_rand,
            }),
    {
        Self { label, choices, value, text_size: 15, width: 175, spacing: 5, on_change, on_rand }
    }

    pub fn text_size(self, text_size: u16) -> (l: Self)
        ensures
            l == (LPickList { text_size, ..self }),
    {
        Self { text_size, ..self }
    }

    pub fn width(self, width: u16) -> (l: Self)
        ensures
            l == (LPickList { width, ..self }),
    {
        Self { width, ..self }
    }

    pub fn spacing(self, spacing: u16) -> (l: Self)
        ensures
            l == (LPickList { spacing, ..self }),
    {
        Self { spacing, ..self }
    }

    /// The message that answers an event: a copy of `on_rand` when the
    /// button is pressed, what `on_change` makes of the choice when one is
    /// picked.
    pub fn update(&self, event: Event<T>) -> (message: Option<Message>)
        requires
            forall|v: Option<T>| call_requires(self.on_change, (v,)),
        ensures
            match event {
                Event::RandPressed => message matches Some(m) && cloned(self.on_rand, m),
                Event::PickListChanged(v) => message matches Some(m) && call_ensures(
                    self.on_change,
                    (Some(v),),
                    m,
                ),
            },
    {
        match event {
            Event::RandPressed => Some(self.on_rand.clone()),
            Event::PickListChanged(v) => Some((self.on_change)(Some(v))),
        }
    }
}

} // verus!

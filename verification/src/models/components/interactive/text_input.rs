use vstd::prelude::*;

verus! {

/// Styles of a text input.
#[derive(Clone, Copy, Debug, PartialEq, Eq, Structural)]
pub enum TextStyle {
    /// A single line.
    Short,
    /// Several lines.
    Paragraph,
}

/// A text input of a modal, built step by step.
pub struct TextInput {
    pub id: Option<i32>,
    pub custom_id: String,
    pub label: Option<String>,
    pub max_length: Option<u16>,
    pub min_length: Option<u16>,
    pub placeholder: Option<String>,
    pub required: Option<bool>,
    pub style: TextStyle,
    pub value: Option<String>,
}

impl TextInput {
    /// A required single-line input with the custom id and nothing else set.
    pub fn new<T: Into<String>>(custom_id: T) -> (r: Self)
        ensures
            call_ensures(T::into, (custom_id,), r.custom_id),
            r.id is None,
            r.label is None,
            r.max_length is None,
            r.min_length is None,
            r.placeholder is None,
            r.required == Some(true),
            r.style == TextStyle::Short,
            r.value is None,
    {
        TextInput {
            id: None,
            custom_id: custom_id.into(),
            label: None,
            max_length: None,
            min_length: None,
            placeholder: None,
            required: Some(true),
            style: TextStyle::Short,
            value: None,
        }
    }

    /// Sets the label, which Discord no longer shows.
    pub fn label<T: Into<String>>(self, label: T) -> (r: Self)
        ensures
            r.label matches Some(l) && call_ensures(T::into, (label,), l),
            r == (TextInput { label: r.label, ..self }),
    {
        TextInput { label: Some(label.into()), ..self }
    }

    /// Sets the placeholder.
    pub fn placeholder<T: Into<String>>(self, placeholder: T) -> (r: Self)
        ensures
            r.placeholder matches Some(p) && call_ensures(T::into, (placeholder,), p),
            r == (TextInput { placeholder: r.placeholder, ..self }),
    {
        TextInput { placeholder: Some(placeholder.into()), ..self }
    }

    /// Sets the prefilled value.
    pub fn value<T: Into<String>>(self, value: T) -> (r: Self)
        ensures
            r.value matches Some(v) && call_ensures(T::into, (value,), v),
            r == (TextInput { value: r.value, ..self }),
    {
        TextInput { value: Some(value.into()), ..self }
    }

    /// Sets the longest accepted text; Discord accepts 1 to 4000, and other
    /// values are set all the same.
    pub fn max_length(self, max_len: u16) -> (r: Self)
        ensures
            r == (TextInput { max_length: Some(max_len), ..self }),
    {
        TextInput { max_length: Some(max_len), ..self }
    }

    /// Sets the shortest accepted text; Discord accepts 0 to 4000, and
    /// other values are set all the same.
    pub fn min_length(self, min_len: u16) -> (r: Self)
        ensures
            r == (TextInput { min_length: Some(min_len), ..self }),
    {
        TextInput { min_length: Some(min_len), ..self }
    }

    /// Sets whether the input must be filled.
    pub fn required(self, required: bool) -> (r: Self)
        ensures
            r == (TextInput { required: Some(required), ..self }),
    {
        TextInput { required: Some(required), ..self }
    }

    /// Sets the style.
    pub fn style(self, style: TextStyle) -> (r: Self)
        ensures
            r == (TextInput { style, ..self }),
    {
        TextInput { style, ..self }
    }
}

} // verus!

use vstd::prelude::*;

verus! {

/// The error of a layout lookup: an unknown layout name, or a character that the
/// layout cannot type.
#[verifier::external_type_specification]
#[verifier::external_body]
pub struct ExLayoutError(keyboard_layouts::Error);

/// What follows a key stroke of a layout lookup.
#[derive(Debug, Clone, Copy, PartialEq, Eq, Structural)]
pub enum StrokeRelease {
    /// Keys and modifier are released after the stroke.
    All,
    /// The stroke is one key of a combination that shares its modifier.
    Keys,
    /// The end of a combination.
    Nothing,
}

/// One key stroke of a layout lookup: a HID usage id, its modifier byte, and what
/// follows it.
#[derive(Debug, Clone, Copy, PartialEq, Eq, Structural)]
pub struct KeyStroke {
    /// HID usage id of the key
    pub key: u8,
    /// Modifier byte held with the key
    pub modifier: u8,
    /// What follows the stroke
    pub release: StrokeRelease,
}

/// The strokes that type `text` on the keyboard layout named `layout`: `None` when
/// the layout is unknown or cannot type some character of `text`.
pub uninterp spec fn layout_strokes(layout: Seq<char>, text: Seq<char>) -> Option<Seq<KeyStroke>>;

/// Relies on `keyboard_layouts::string_to_keys_and_modifiers`: it looks the layout
/// up by name in its static tables and lists the strokes that type the string made
/// of `c`, so the answer depends on the two arguments alone. It does not panic: every
/// layout table holds a key for each of the 96 characters it indexes.
#[verifier::external_body]
pub(crate) fn strokes_for_char(layout_key: &str, c: char) -> (r: Result<
    Vec<KeyStroke>,
    keyboard_layouts::Error,
>)
    ensures
        match r {
            Ok(strokes) => layout_strokes(layout_key@, seq![c]) == Some(strokes@),
            Err(_) => layout_strokes(layout_key@, seq![c]) is None,
        },
{
    let strokes = keyboard_layouts::string_to_keys_and_modifiers(layout_key, &c.to_string())?;
    Ok(strokes.into_iter().map(|s| KeyStroke {
        key: s.key,
        modifier: s.modifier,
        release: match s.release {
            keyboard_layouts::Release::All => StrokeRelease::All,
            keyboard_layouts::Release::Keys => StrokeRelease::Keys,
            keyboard_layouts::Release::None => StrokeRelease::Nothing,
        },
    }).collect())
}

} // verus!

//! Writing a flat record of text fields as an indented XML element.

use vstd::prelude::*;

verus! {

/// The error of quick_xml's serializer. Nothing is known of what it holds.
#[verifier::external_type_specification]
#[verifier::external_body]
pub struct ExSeError(quick_xml::se::SeError);

/// The document that quick_xml's serializer writes for a struct named `tag`
/// whose four fields have the names `keys` and the text values `values`,
/// with an indentation of `width` times `indent` per level; `None` where the
/// serializer reports an error.
pub uninterp spec fn xml_record(
    tag: Seq<char>,
    keys: Seq<Seq<char>>,
    values: Seq<Seq<char>>,
    indent: char,
    width: usize,
) -> Option<Seq<char>>;

/// The text of each string of a list, in order.
pub open spec fn texts(items: Seq<&str>) -> Seq<Seq<char>> {
    items.map_values(|s: &str| s@)
}

/// Whether `c` is an ASCII character.
pub open spec fn is_ascii_char(c: char) -> bool {
    (c as u32) < 128
}

/// Runs quick_xml's serde serializer (`Serializer::new`, `indent`,
/// `serialize_struct`, four times `serialize_field`, `end`) into a fresh
/// string. The serializer is a function of what it is given, so the contract
/// names the outcome after the arguments; it does not say what the document
/// looks like, nor that there is one. Trusted, not proved.
#[verifier::external_body]
pub(crate) fn write_record(
    tag: &'static str,
    keys: [&'static str; 4],
    values: [&str; 4],
    indent: char,
    width: usize,
) -> (r: Result<String, quick_xml::se::SeError>)
    requires
        is_ascii_char(indent),
        width <= 128,
    ensures
        match r {
            Ok(text) => xml_record(tag@, texts(keys@), texts(values@), indent, width) == Some(
                text@,
            ),
            Err(_) => xml_record(tag@, texts(keys@), texts(values@), indent, width) is None,
        },
{
    let mut buffer = String::new();
    let mut serializer = quick_xml::se::Serializer::new(&mut buffer);
    serializer.indent(indent, width);
    let mut record = serde::Serializer::serialize_struct(serializer, tag, 4)?;
    serde::ser::SerializeStruct::serialize_field(&mut record, keys[0], values[0])?;
    serde::ser::SerializeStruct::serialize_field(&mut record, keys[1], values[1])?;
    serde::ser::SerializeStruct::serialize_field(&mut record, keys[2], values[2])?;
    serde::ser::SerializeStruct::serialize_field(&mut record, keys[3], values[3])?;
    serde::ser::SerializeStruct::end(record)?;
    Ok(buffer)
}

} // verus!

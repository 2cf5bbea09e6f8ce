//! The trusted boundary to the rendering engine and to the values it consumes.
//!
//! The engine compiles template source text and renders it with a job's data;
//! both operations live in the `papermake` crate and are reached only through
//! the wrappers here. Job data is a `serde_json::Value`, carried through the
//! library opaquely and handed to the engine unread.

use vstd::prelude::*;

verus! {

/// Declares `serde_json::Value` so jobs can carry their data through the
/// library; the library never looks inside a value of it.
#[verifier::external_type_specification]
#[verifier::external_body]
pub struct ExValue(serde_json::Value);

/// Declares `papermake::PapermakeWorld`, the engine's stateful render
/// context: one per template, not safe for concurrent use, reused across
/// renders of that template.
#[verifier::external_type_specification]
#[verifier::external_body]
pub struct ExWorld(papermake::PapermakeWorld);

/// What decoding a byte sequence as UTF-8 yields: `Some` with the decoded
/// characters when the bytes are valid UTF-8, `None` otherwise. The result
/// depends on the bytes alone.
pub uninterp spec fn utf8_source(bytes: Seq<u8>) -> Option<Seq<char>>;

/// Relies on `String::from_utf8`: returns the decoded text exactly when the
/// bytes are valid UTF-8, and the decoding depends on the bytes alone.
#[verifier::external_body]
pub fn decode_template(bytes: &Vec<u8>) -> (r: Result<String, String>)
    ensures
        match r {
            Ok(s) => utf8_source(bytes@) == Some(s@),
            Err(_) => utf8_source(bytes@) is None,
        },
{
    match String::from_utf8(bytes.clone()) {
        Ok(s) => Ok(s),
        Err(e) => Err(e.to_string()),
    }
}

/// Relies on `papermake::render_template`: compiles the template source and
/// renders it with the given data in one call. `Ok` carries the engine's
/// output, whose PDF bytes are absent when compilation or layout failed;
/// `Err` carries the engine's error message. The output may depend on the
/// process environment (fonts, current date), so nothing more is assumed
/// of it.
#[verifier::external_body]
pub fn render_once(source: &String, data: &serde_json::Value) -> (r: Result<
    Option<Vec<u8>>,
    String,
>) {
    let fs = std::sync::Arc::new(papermake::InMemoryFileSystem::new());
    match papermake::render_template(source.clone(), fs, data) {
        Ok(out) => Ok(out.pdf),
        Err(e) => Err(e.to_string()),
    }
}

/// Relies on `papermake::PapermakeWorld::with_file_system`: builds a fresh
/// render context for the given template source. The context starts with the
/// JSON text `null` as its data; every render replaces the data before
/// compiling, so the initial value is never rendered.
#[verifier::external_body]
pub fn new_render_context(source: &String) -> (w: papermake::PapermakeWorld) {
    let fs = std::sync::Arc::new(papermake::InMemoryFileSystem::new());
    papermake::PapermakeWorld::with_file_system(source.clone(), String::from("null"), fs)
}

/// Relies on `papermake::render_template_with_cache`: injects the given data
/// into the existing context and renders with it, reusing the context's
/// compiled state. `Ok` carries the engine's output, whose PDF bytes are
/// absent when compilation or layout failed; `Err` carries the engine's error
/// message. A failed render leaves the context usable for the next call.
#[verifier::external_body]
pub fn render_in_context(world: &mut papermake::PapermakeWorld, data: &serde_json::Value) -> (r:
    Result<Option<Vec<u8>>, String>) {
    let fs = std::sync::Arc::new(papermake::InMemoryFileSystem::new());
    match papermake::render_template_with_cache(String::new(), fs, data.clone(), Some(world)) {
        Ok(out) => Ok(out.pdf),
        Err(e) => Err(e.to_string()),
    }
}

/// Relies on std's `format!`: returns the concatenation of the two strings.
#[verifier::external_body]
pub fn concat_str(a: &String, b: &str) -> (r: String)
    ensures
        r@ == a@ + b@,
{
    format!("{}{}", a, b)
}

} // verus!

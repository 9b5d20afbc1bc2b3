use vstd::prelude::*;
use vstd::string::StringExecFns;
use vstd::utf8::decode_utf8;
use vstd::utf8::valid_utf8;

use crate::Error;

verus! {

/// A builder for running the application.
pub struct Groom {
    /// Path of the YAML data file. If it is `None`, the data is read from
    /// `stdin`.
    pub data: Option<String>,
    /// Path of the output file. If it is `None`, the rendered text goes to
    /// `stdout`.
    pub output: Option<String>,
}

impl Groom {
    /// Creates a new application instance.
    pub fn new() -> (g: Groom)
        ensures
            g.data is None,
            g.output is None,
    {
        Groom { data: None, output: None }
    }

    /// Sets the data.
    ///
    /// If the data is `None`, then `stdin` is used for the data.
    pub fn data(self, d: Option<String>) -> (g: Self)
        ensures
            g.data == d,
            g.output == self.output,
    {
        Groom { data: d, ..self }
    }

    /// Sets the output.
    ///
    /// If the output is `None`, then `stdout` is used for the output stream.
    pub fn output(self, o: Option<String>) -> (g: Self)
        ensures
            g.output == o,
            g.data == self.data,
    {
        Groom { output: o, ..self }
    }
}

/// Holds exactly when the text is a YAML document that the decoder accepts.
/// It names the outcome of `serde_yaml::from_str`, which depends on the text
/// alone.
pub uninterp spec fn yaml_parses(s: Seq<char>) -> bool;

/// Relies on `serde_yaml::from_str`: a value tree comes back exactly when
/// the text is a YAML document that the decoder accepts, and the outcome
/// depends on the text alone.
#[verifier::external_body]
fn parse_mapping(s: &str) -> (r: Result<serde_yaml::Value, String>)
    ensures
        r is Ok <==> yaml_parses(s@),
{
    match serde_yaml::from_str(s) {
        Ok(v) => Ok(v),
        Err(e) => Err(format!("{}", e)),
    }
}

/// Relies on `mustache::compile_str`: the template text is parsed, and any
/// partial tag (`{{> name}}`) is loaded from a file next to the working
/// directory, so the outcome may depend on what is on disk; nothing is
/// therefore promised of it.
#[verifier::external_body]
fn compile_source(s: &str) -> Result<mustache::Template, String> {
    match mustache::compile_str(s) {
        Ok(t) => Ok(t),
        Err(e) => Err(format!("{}", e)),
    }
}

/// Relies on `str::from_utf8`: the borrowed text comes back exactly when the
/// bytes are valid UTF-8, and its characters are their decoding.
#[verifier::external_body]
fn bytes_to_str(v: &[u8]) -> (r: Result<&str, core::str::Utf8Error>)
    ensures
        r is Ok <==> valid_utf8(v@),
        r is Ok ==> r->Ok_0@ == decode_utf8(v@),
{
    core::str::from_utf8(v)
}

/// Turns rendered bytes into owned text, or reports the UTF-8 fault.
pub fn decode_rendered(bytes: Vec<u8>) -> (r: Result<String, Error>)
    ensures
        r is Ok <==> valid_utf8(bytes@),
        r is Ok ==> r->Ok_0@ == decode_utf8(bytes@),
        r is Err ==> r->Err_0 is Utf8,
{
    match bytes_to_str(bytes.as_slice()) {
        Ok(s) => Ok(s.to_owned()),
        Err(e) => Err(Error::Utf8(e)),
    }
}

/// Decodes the YAML mapping text into the value tree that the template
/// engine renders against.
///
/// A `Yaml` fault comes back exactly when the text does not parse; on every
/// other input the value comes back. The caller therefore learns the fate of
/// its data before it touches any sink.
pub fn parse_data(data: &str) -> (r: Result<serde_yaml::Value, Error>)
    ensures
        r is Ok <==> yaml_parses(data@),
        r is Err ==> r->Err_0 is Yaml,
{
    match parse_mapping(data) {
        Ok(v) => Ok(v),
        Err(e) => Err(Error::Yaml(e)),
    }
}

/// Compiles the template text.
///
/// Every failure is the template engine's own report, carried as a
/// `Mustache` fault. Whether compiling succeeds may depend on what is on
/// disk (a partial tag is loaded from a file), so nothing is promised of it.
pub fn compile_template(template: &str) -> (r: Result<mustache::Template, Error>)
    ensures
        r is Err ==> r->Err_0 is Mustache,
{
    match compile_source(template) {
        Ok(t) => Ok(t),
        Err(e) => Err(Error::Mustache(e)),
    }
}

/// Turns the template engine's outcome into the library's result.
///
/// The engine's `render` panics when an interpolation tag resolves to a
/// bool, a sequence or a mapping, and a verified function may not, so the
/// caller performs that call and hands the outcome here: the engine's report
/// becomes a `Mustache` fault with the same message, and rendered bytes are
/// decoded as UTF-8.
pub fn finish_render(outcome: Result<Vec<u8>, String>) -> (r: Result<String, Error>)
    ensures
        outcome is Err ==> r is Err && r->Err_0 is Mustache
            && r->Err_0->Mustache_0 == outcome->Err_0,
        outcome is Ok ==> (r is Ok <==> valid_utf8(outcome->Ok_0@)),
        outcome is Ok ==> (r is Ok ==> r->Ok_0@ == decode_utf8(outcome->Ok_0@)),
        outcome is Ok ==> (r is Err ==> r->Err_0 is Utf8),
{
    match outcome {
        Ok(bytes) => decode_rendered(bytes),
        Err(msg) => Err(Error::Mustache(msg)),
    }
}

/// The user-input fault reported when the data file is not on disk.
pub fn missing_data_error(path: &str) -> (r: Error)
    ensures
        r is Input,
        r->Input_0@ == "The '"@ + path@ + "' data file does not exist"@,
{
    let mut m = String::from_str("The '");
    m.append(path);
    m.append("' data file does not exist");
    Error::Input(m)
}

/// The user-input fault reported when the template file is not on disk.
pub fn missing_template_error(path: &str) -> (r: Error)
    ensures
        r is Input,
        r->Input_0@ == "The '"@ + path@ + "' template file does not exist"@,
{
    let mut m = String::from_str("The '");
    m.append(path);
    m.append("' template file does not exist");
    Error::Input(m)
}

} // verus!

use vstd::prelude::*;

verus! {

/// The output format of a parse.
#[derive(Clone, Copy, Debug, PartialEq, Eq, Structural)]
pub enum OutputFormat {
    Json,
    Text,
    Markdown,
}

/// How raster image references appear in markdown output.
#[derive(Clone, Copy, Debug, PartialEq, Eq, Structural)]
pub enum ImageMode {
    Off,
    Placeholder,
    Embed,
}

/// The format that an `output_format` keyword names: `"text"` is plain text,
/// `"markdown"` and `"md"` are markdown, and every other name is JSON.
pub open spec fn format_named(name: Seq<char>) -> OutputFormat {
    if name == "text"@ {
        OutputFormat::Text
    } else if name == "markdown"@ || name == "md"@ {
        OutputFormat::Markdown
    } else {
        OutputFormat::Json
    }
}

/// The image mode that an `image_mode` keyword names: `"off"` and `"none"`
/// switch images off, `"embed"` embeds them, every other name keeps
/// placeholders.
pub open spec fn image_mode_named(name: Seq<char>) -> ImageMode {
    if name == "off"@ || name == "none"@ {
        ImageMode::Off
    } else if name == "embed"@ {
        ImageMode::Embed
    } else {
        ImageMode::Placeholder
    }
}

/// The name under which a configuration reports its output format.
pub open spec fn format_name(format: OutputFormat) -> Seq<char> {
    match format {
        OutputFormat::Json => "json"@,
        OutputFormat::Text => "text"@,
        OutputFormat::Markdown => "markdown"@,
    }
}

fn is_text(name: &String, literal: &str) -> (r: bool)
    ensures
        r == (name@ == literal@),
{
    let owned = literal.to_owned();
    *name == owned
}

/// Reads an `output_format` keyword.
pub fn parse_output_format(name: &String) -> (r: OutputFormat)
    ensures
        r == format_named(name@),
{
    if is_text(name, "text") {
        OutputFormat::Text
    } else if is_text(name, "markdown") || is_text(name, "md") {
        OutputFormat::Markdown
    } else {
        OutputFormat::Json
    }
}

/// Reads an `image_mode` keyword.
pub fn parse_image_mode(name: &String) -> (r: ImageMode)
    ensures
        r == image_mode_named(name@),
{
    if is_text(name, "off") || is_text(name, "none") {
        ImageMode::Off
    } else if is_text(name, "embed") {
        ImageMode::Embed
    } else {
        ImageMode::Placeholder
    }
}

/// The name of an output format, as a configuration reports it.
pub fn output_format_name(format: OutputFormat) -> (r: String)
    ensures
        r@ == format_name(format),
{
    match format {
        OutputFormat::Json => "json".to_owned(),
        OutputFormat::Text => "text".to_owned(),
        OutputFormat::Markdown => "markdown".to_owned(),
    }
}

/// Reading back the name that a configuration reports for its output format
/// gives that format again.
pub proof fn lemma_format_name_round_trip(format: OutputFormat)
    ensures
        format_named(format_name(format)) == format,
{
    reveal_strlit("json");
    reveal_strlit("text");
    reveal_strlit("markdown");
    reveal_strlit("md");
    match format {
        OutputFormat::Json => {
            assert("json"@[0] != "text"@[0]);
            assert("json"@[0] != "markdown"@[0]);
            assert("json"@.len() != "md"@.len());
        },
        OutputFormat::Text => {},
        OutputFormat::Markdown => {},
    }
}

/// The names under which the formats are reported are "json", "text" and
/// "markdown", one for each format.
pub proof fn lemma_format_names(format: OutputFormat)
    ensures
        format == OutputFormat::Json ==> format_name(format) == "json"@,
        format == OutputFormat::Text ==> format_name(format) == "text"@,
        format == OutputFormat::Markdown ==> format_name(format) == "markdown"@,
{
}

} // verus!

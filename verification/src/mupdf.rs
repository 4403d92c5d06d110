use vstd::prelude::*;
use crate::text::{ascii_lowercase, chars_of, matches_at, starts_with, string_views, to_ascii_lowercase};

verus! {

/// The program that recolours documents: the configured one, or `mutool`.
pub fn mutool_program(configured: Option<String>) -> (program: String)
    ensures
        program@ == match configured {
            Some(name) => name@,
            None => "mutool"@,
        },
{
    match configured {
        Some(name) => name,
        None => "mutool".to_owned(),
    }
}

/// The arguments with which the program writes a gray copy of a file.
pub fn recolor_args(input_path: &str, output_path: &str) -> (args: Vec<String>)
    ensures
        string_views(args@) == seq!["recolor"@, "-c"@, "gray"@, "-o"@, output_path@, input_path@],
{
    let mut args: Vec<String> = Vec::new();
    args.push("recolor".to_owned());
    args.push("-c".to_owned());
    args.push("gray".to_owned());
    args.push("-o".to_owned());
    args.push(output_path.to_owned());
    args.push(input_path.to_owned());
    assert(string_views(args@) =~= seq![
        "recolor"@,
        "-c"@,
        "gray"@,
        "-o"@,
        output_path@,
        input_path@,
    ]);
    args
}

/// Whether `needle` stands somewhere in `text`.
pub open spec fn contains_text(text: Seq<char>, needle: Seq<char>) -> bool {
    exists|at: int| 0 <= at <= text.len() && #[trigger] starts_with(text.skip(at), needle)
}

fn chars_contain_text(text: &Vec<char>, needle: &Vec<char>) -> (found: bool)
    ensures
        found == contains_text(text@, needle@),
{
    let mut at: usize = 0;
    while at < text.len()
        invariant
            at <= text.len(),
            forall|j: int| 0 <= j < at ==> !#[trigger] starts_with(text@.skip(j), needle@),
        decreases text.len() - at,
    {
        if matches_at(text, at, needle) {
            return true;
        }
        at += 1;
    }
    matches_at(text, at, needle)
}

/// What the program prints when it knows the command `recolor`.
pub open spec fn recolor_usage() -> Seq<char> {
    "usage: mutool recolor"@
}

/// Whether the program knows the command `recolor`: called with that
/// command alone it prints how to use it, on either stream and in any case
/// of letters.
pub fn supports_recolor(stdout: &str, stderr: &str) -> (supported: bool)
    ensures
        supported == (contains_text(ascii_lowercase(stdout@), recolor_usage()) || contains_text(
            ascii_lowercase(stderr@),
            recolor_usage(),
        )),
{
    let usage = chars_of("usage: mutool recolor");
    let out = to_ascii_lowercase(&chars_of(stdout));
    if chars_contain_text(&out, &usage) {
        return true;
    }
    let err = to_ascii_lowercase(&chars_of(stderr));
    chars_contain_text(&err, &usage)
}

} // verus!

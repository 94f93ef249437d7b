//! The TeX renderer, an outside collaborator: a TeX string and its options
//! go in, HTML comes out, or the renderer refuses the input. What the
//! renderer returns for given input is named, not restated: it depends on
//! the TeX source and the options alone.
use vstd::prelude::*;

verus! {

/// What the TeX renderer yields for a TeX source under the given display
/// and fleqn options: the HTML, or `None` where it refuses the input. The
/// renderer may also fail for reasons of its environment; such a failure is
/// not a refusal and is not covered by this name.
pub uninterp spec fn katex_output(tex: Seq<char>, display: bool, fleqn: bool) -> Option<Seq<char>>;

/// Relies on katex::render_with_opts: rendering is a function of the input
/// and the options alone, with errors thrown back rather than inlined, and
/// HTML input trusted. A failure can also come from the embedded engine's
/// own setup, so nothing forces success; the error's display text is handed
/// back for diagnostics.
#[verifier::external_body]
pub fn katex_render(tex: &str, display: bool, fleqn: bool) -> (r: Result<String, String>)
    ensures
        (r matches Ok(html) ==> katex_output(tex@, display, fleqn) == Some(html@)),
{
    let opts = katex::Opts::builder().display_mode(display).throw_on_error(true).trust(
        true,
    ).fleqn(fleqn).build().map_err(|e| format!("{}", e))?;
    katex::render_with_opts(tex, &opts).map_err(|e| format!("{}", e))
}

} // verus!

//! The style application function and one convenience entry point per named
//! color, background color, and text attribute.
//!
//! Content is rendered innermost-first: an inner styled string is produced
//! while the enclosing code sits on the context stack (pushed by the caller
//! or by an enclosing application), so its closing segment resumes the
//! enclosing style rather than the terminal default.

use vstd::prelude::*;
use vstd::string::StringExecFns;
use crate::codes::bg_rgb_code;
use crate::codes::fg_rgb_code;
use crate::codes;
use crate::colorspace::hsl_rgb;
use crate::colorspace::hsv_rgb;
use crate::colorspace;
use crate::context::current_of;
use crate::context::pop_effect;
use crate::context::push_effect;
use crate::context::ColorContext;

verus! {

/// The universal reset sequence, which clears all active style attributes.
pub open spec fn reset_code() -> Seq<char> {
    "\x1b[0m"@
}

/// The rendered output of one style application: the region's own code, the
/// content, the universal reset, and the enclosing code to resume.
pub open spec fn styled(code: Seq<char>, content: Seq<char>, enclosing: Seq<char>) -> Seq<char> {
    code + content + reset_code() + enclosing
}

/// Returns the universal reset sequence.
pub fn reset_all() -> (s: &'static str)
    ensures
        s@ == reset_code(),
{
    "\x1b[0m"
}

/// Applies `code` to the rendered `content`: pushes `code`, takes the
/// content, pops, and closes the region with the universal reset followed
/// by the style that is current after the pop.
///
/// The context comes back exactly as it went in, and the trailing code of
/// the output is the style that was current before the call — the enclosing
/// style, or the sentinel default at top level.
pub fn apply(ctx: &mut ColorContext, code: &str, content: &str) -> (out: String)
    requires
        old(ctx).wf(),
    ensures
        final(ctx)@ == old(ctx)@,
        final(ctx).wf(),
        out@ == styled(code@, content@, current_of(old(ctx)@)),
{
    ctx.push(code);
    let mut out = code.to_owned();
    out.append(content);
    out.append("\x1b[0m");
    ctx.pop();
    let enclosing = ctx.current_color();
    out.append(enclosing.as_str());
    proof {
        assert(pop_effect(push_effect(old(ctx)@, code@)) =~= old(ctx)@);
        assert(out@ =~= styled(code@, content@, current_of(old(ctx)@)));
    }
    out
}

/// Applies the red foreground color.
pub fn red(ctx: &mut ColorContext, content: &str) -> (out: String)
    requires
        old(ctx).wf(),
    ensures
        final(ctx)@ == old(ctx)@,
        final(ctx).wf(),
        out@ == styled("\x1b[31m"@, content@, current_of(old(ctx)@)),
{
    apply(ctx, "\x1b[31m", content)
}

/// Applies the green foreground color.
pub fn green(ctx: &mut ColorContext, content: &str) -> (out: String)
    requires
        old(ctx).wf(),
    ensures
        final(ctx)@ == old(ctx)@,
        final(ctx).wf(),
        out@ == styled("\x1b[32m"@, content@, current_of(old(ctx)@)),
{
    apply(ctx, "\x1b[32m", content)
}

/// Applies the blue foreground color.
pub fn blue(ctx: &mut ColorContext, content: &str) -> (out: String)
    requires
        old(ctx).wf(),
    ensures
        final(ctx)@ == old(ctx)@,
        final(ctx).wf(),
        out@ == styled("\x1b[34m"@, content@, current_of(old(ctx)@)),
{
    apply(ctx, "\x1b[34m", content)
}

/// Applies the white foreground color.
pub fn white(ctx: &mut ColorContext, content: &str) -> (out: String)
    requires
        old(ctx).wf(),
    ensures
        final(ctx)@ == old(ctx)@,
        final(ctx).wf(),
        out@ == styled("\x1b[37m"@, content@, current_of(old(ctx)@)),
{
    apply(ctx, "\x1b[37m", content)
}

/// Applies the black foreground color.
pub fn black(ctx: &mut ColorContext, content: &str) -> (out: String)
    requires
        old(ctx).wf(),
    ensures
        final(ctx)@ == old(ctx)@,
        final(ctx).wf(),
        out@ == styled("\x1b[30m"@, content@, current_of(old(ctx)@)),
{
    apply(ctx, "\x1b[30m", content)
}

/// Applies the yellow foreground color.
pub fn yellow(ctx: &mut ColorContext, content: &str) -> (out: String)
    requires
        old(ctx).wf(),
    ensures
        final(ctx)@ == old(ctx)@,
        final(ctx).wf(),
        out@ == styled("\x1b[33m"@, content@, current_of(old(ctx)@)),
{
    apply(ctx, "\x1b[33m", content)
}

/// Applies the magenta foreground color.
pub fn magenta(ctx: &mut ColorContext, content: &str) -> (out: String)
    requires
        old(ctx).wf(),
    ensures
        final(ctx)@ == old(ctx)@,
        final(ctx).wf(),
        out@ == styled("\x1b[35m"@, content@, current_of(old(ctx)@)),
{
    apply(ctx, "\x1b[35m", content)
}

/// Applies the cyan foreground color.
pub fn cyan(ctx: &mut ColorContext, content: &str) -> (out: String)
    requires
        old(ctx).wf(),
    ensures
        final(ctx)@ == old(ctx)@,
        final(ctx).wf(),
        out@ == styled("\x1b[36m"@, content@, current_of(old(ctx)@)),
{
    apply(ctx, "\x1b[36m", content)
}

/// Applies the red background color.
pub fn bg_red(ctx: &mut ColorContext, content: &str) -> (out: String)
    requires
        old(ctx).wf(),
    ensures
        final(ctx)@ == old(ctx)@,
        final(ctx).wf(),
        out@ == styled("\x1b[41m"@, content@, current_of(old(ctx)@)),
{
    apply(ctx, "\x1b[41m", content)
}

/// Applies the green background color.
pub fn bg_green(ctx: &mut ColorContext, content: &str) -> (out: String)
    requires
        old(ctx).wf(),
    ensures
        final(ctx)@ == old(ctx)@,
        final(ctx).wf(),
        out@ == styled("\x1b[42m"@, content@, current_of(old(ctx)@)),
{
    apply(ctx, "\x1b[42m", content)
}

/// Applies the blue background color.
pub fn bg_blue(ctx: &mut ColorContext, content: &str) -> (out: String)
    requires
        old(ctx).wf(),
    ensures
        final(ctx)@ == old(ctx)@,
        final(ctx).wf(),
        out@ == styled("\x1b[44m"@, content@, current_of(old(ctx)@)),
{
    apply(ctx, "\x1b[44m", content)
}

/// Applies the white background color.
pub fn bg_white(ctx: &mut ColorContext, content: &str) -> (out: String)
    requires
        old(ctx).wf(),
    ensures
        final(ctx)@ == old(ctx)@,
        final(ctx).wf(),
        out@ == styled("\x1b[47m"@, content@, current_of(old(ctx)@)),
{
    apply(ctx, "\x1b[47m", content)
}

/// Applies the black background color.
pub fn bg_black(ctx: &mut ColorContext, content: &str) -> (out: String)
    requires
        old(ctx).wf(),
    ensures
        final(ctx)@ == old(ctx)@,
        final(ctx).wf(),
        out@ == styled("\x1b[40m"@, content@, current_of(old(ctx)@)),
{
    apply(ctx, "\x1b[40m", content)
}

/// Applies the yellow background color.
pub fn bg_yellow(ctx: &mut ColorContext, content: &str) -> (out: String)
    requires
        old(ctx).wf(),
    ensures
        final(ctx)@ == old(ctx)@,
        final(ctx).wf(),
        out@ == styled("\x1b[43m"@, content@, current_of(old(ctx)@)),
{
    apply(ctx, "\x1b[43m", content)
}

/// Applies the magenta background color.
pub fn bg_magenta(ctx: &mut ColorContext, content: &str) -> (out: String)
    requires
        old(ctx).wf(),
    ensures
        final(ctx)@ == old(ctx)@,
        final(ctx).wf(),
        out@ == styled("\x1b[45m"@, content@, current_of(old(ctx)@)),
{
    apply(ctx, "\x1b[45m", content)
}

/// Applies the cyan background color.
pub fn bg_cyan(ctx: &mut ColorContext, content: &str) -> (out: String)
    requires
        old(ctx).wf(),
    ensures
        final(ctx)@ == old(ctx)@,
        final(ctx).wf(),
        out@ == styled("\x1b[46m"@, content@, current_of(old(ctx)@)),
{
    apply(ctx, "\x1b[46m", content)
}

/// Applies the bold text attribute.
pub fn bold(ctx: &mut ColorContext, content: &str) -> (out: String)
    requires
        old(ctx).wf(),
    ensures
        final(ctx)@ == old(ctx)@,
        final(ctx).wf(),
        out@ == styled("\x1b[1m"@, content@, current_of(old(ctx)@)),
{
    apply(ctx, "\x1b[1m", content)
}

/// Applies the italic text attribute.
pub fn italic(ctx: &mut ColorContext, content: &str) -> (out: String)
    requires
        old(ctx).wf(),
    ensures
        final(ctx)@ == old(ctx)@,
        final(ctx).wf(),
        out@ == styled("\x1b[3m"@, content@, current_of(old(ctx)@)),
{
    apply(ctx, "\x1b[3m", content)
}

/// Applies the underline text attribute.
pub fn underline(ctx: &mut ColorContext, content: &str) -> (out: String)
    requires
        old(ctx).wf(),
    ensures
        final(ctx)@ == old(ctx)@,
        final(ctx).wf(),
        out@ == styled("\x1b[4m"@, content@, current_of(old(ctx)@)),
{
    apply(ctx, "\x1b[4m", content)
}

/// Applies a true-color foreground built from the given channels.
pub fn rgb(ctx: &mut ColorContext, r: u8, g: u8, b: u8, content: &str) -> (out: String)
    requires
        old(ctx).wf(),
    ensures
        final(ctx)@ == old(ctx)@,
        final(ctx).wf(),
        out@ == styled(
            fg_rgb_code(r as int, g as int, b as int),
            content@,
            current_of(old(ctx)@),
        ),
{
    let code = codes::rgb_code(r, g, b);
    apply(ctx, code.as_str(), content)
}

/// Applies a true-color background built from the given channels.
pub fn bg_rgb(ctx: &mut ColorContext, r: u8, g: u8, b: u8, content: &str) -> (out: String)
    requires
        old(ctx).wf(),
    ensures
        final(ctx)@ == old(ctx)@,
        final(ctx).wf(),
        out@ == styled(
            bg_rgb_code(r as int, g as int, b as int),
            content@,
            current_of(old(ctx)@),
        ),
{
    let code = codes::bg_code(r, g, b);
    apply(ctx, code.as_str(), content)
}

/// Applies a foreground color given in HSL: hue in degrees, saturation and
/// lightness in thousandths.
pub fn hsl(ctx: &mut ColorContext, h: u32, s: u32, l: u32, content: &str) -> (out: String)
    requires
        old(ctx).wf(),
        s <= 1000,
        l <= 1000,
    ensures
        final(ctx)@ == old(ctx)@,
        final(ctx).wf(),
        out@ == styled(
            fg_rgb_code(
                hsl_rgb(h as int, s as int, l as int).0,
                hsl_rgb(h as int, s as int, l as int).1,
                hsl_rgb(h as int, s as int, l as int).2,
            ),
            content@,
            current_of(old(ctx)@),
        ),
{
    let (r, g, b) = colorspace::hsl_to_rgb(h, s, l);
    rgb(ctx, r, g, b, content)
}

/// Applies a foreground color given in HSV: hue in degrees, saturation and
/// value in thousandths.
pub fn hsv(ctx: &mut ColorContext, h: u32, s: u32, v: u32, content: &str) -> (out: String)
    requires
        old(ctx).wf(),
        s <= 1000,
        v <= 1000,
    ensures
        final(ctx)@ == old(ctx)@,
        final(ctx).wf(),
        out@ == styled(
            fg_rgb_code(
                hsv_rgb(h as int, s as int, v as int).0,
                hsv_rgb(h as int, s as int, v as int).1,
                hsv_rgb(h as int, s as int, v as int).2,
            ),
            content@,
            current_of(old(ctx)@),
        ),
{
    let (r, g, b) = colorspace::hsv_to_rgb(h, s, v);
    rgb(ctx, r, g, b, content)
}

/// Applies a background color given in HSL: hue in degrees, saturation and
/// lightness in thousandths.
pub fn bg_hsl(ctx: &mut ColorContext, h: u32, s: u32, l: u32, content: &str) -> (out: String)
    requires
        old(ctx).wf(),
        s <= 1000,
        l <= 1000,
    ensures
        final(ctx)@ == old(ctx)@,
        final(ctx).wf(),
        out@ == styled(
            bg_rgb_code(
                hsl_rgb(h as int, s as int, l as int).0,
                hsl_rgb(h as int, s as int, l as int).1,
                hsl_rgb(h as int, s as int, l as int).2,
            ),
            content@,
            current_of(old(ctx)@),
        ),
{
    let (r, g, b) = colorspace::hsl_to_rgb(h, s, l);
    bg_rgb(ctx, r, g, b, content)
}

/// Applies a background color given in HSV: hue in degrees, saturation and
/// value in thousandths.
pub fn bg_hsv(ctx: &mut ColorContext, h: u32, s: u32, v: u32, content: &str) -> (out: String)
    requires
        old(ctx).wf(),
        s <= 1000,
        v <= 1000,
    ensures
        final(ctx)@ == old(ctx)@,
        final(ctx).wf(),
        out@ == styled(
            bg_rgb_code(
                hsv_rgb(h as int, s as int, v as int).0,
                hsv_rgb(h as int, s as int, v as int).1,
                hsv_rgb(h as int, s as int, v as int).2,
            ),
            content@,
            current_of(old(ctx)@),
        ),
{
    let (r, g, b) = colorspace::hsv_to_rgb(h, s, v);
    bg_rgb(ctx, r, g, b, content)
}

} // verus!

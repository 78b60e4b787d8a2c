//! Overlay-titlebar script preparation.
//!
//! When the plugin draws its own window controls inside the webview, the
//! injected script carries a placeholder list naming all three controls;
//! before injection the placeholder's first occurrence is replaced with
//! the list of controls this window actually has. This module computes
//! which controls are enabled and performs the substitution on the script
//! bytes; reading the script file and evaluating the result in the
//! webview belong to the platform layer.

use vstd::prelude::*;
use vstd::string::StringSliceAdditionalSpecFns;

verus! {

/// A window control the injected script can draw.
#[derive(Clone, Copy, Debug, PartialEq, Eq, Structural)]
pub enum WindowControl {
    Minimize,
    Maximize,
    Close,
}

/// The controls a window offers, in the script's fixed order: minimize,
/// then maximize (only for a window that is both maximizable and
/// resizable), then close.
pub open spec fn spec_enabled_controls(
    minimizable: bool,
    maximizable: bool,
    resizable: bool,
    closable: bool,
) -> Seq<WindowControl> {
    (if minimizable {
        seq![WindowControl::Minimize]
    } else {
        Seq::<WindowControl>::empty()
    }) + (if maximizable && resizable {
        seq![WindowControl::Maximize]
    } else {
        Seq::<WindowControl>::empty()
    }) + (if closable {
        seq![WindowControl::Close]
    } else {
        Seq::<WindowControl>::empty()
    })
}

/// Which controls to draw, from the window's capability flags.
pub fn enabled_controls(
    minimizable: bool,
    maximizable: bool,
    resizable: bool,
    closable: bool,
) -> (r: Vec<WindowControl>)
    ensures
        r@ == spec_enabled_controls(minimizable, maximizable, resizable, closable),
{
    let mut r: Vec<WindowControl> = Vec::new();
    if minimizable {
        r.push(WindowControl::Minimize);
    }
    if maximizable && resizable {
        r.push(WindowControl::Maximize);
    }
    if closable {
        r.push(WindowControl::Close);
    }
    assert(r@ =~= spec_enabled_controls(minimizable, maximizable, resizable, closable));
    r
}

pub open spec fn control_name_bytes(c: WindowControl) -> Seq<u8> {
    match c {
        WindowControl::Minimize => "minimize".spec_bytes(),
        WindowControl::Maximize => "maximize".spec_bytes(),
        WindowControl::Close => "close".spec_bytes(),
    }
}

pub open spec fn quoted_control(c: WindowControl) -> Seq<u8> {
    "\"".spec_bytes() + control_name_bytes(c) + "\"".spec_bytes()
}

pub open spec fn controls_json_items(cs: Seq<WindowControl>) -> Seq<u8>
    decreases cs.len(),
{
    if cs.len() == 0 {
        Seq::<u8>::empty()
    } else if cs.len() == 1 {
        quoted_control(cs[0])
    } else {
        controls_json_items(cs.drop_last()) + ", ".spec_bytes() + quoted_control(cs.last())
    }
}

/// The bytes of a control list as the script writes it: quoted names,
/// comma-separated, in brackets.
pub open spec fn controls_json_spec(cs: Seq<WindowControl>) -> Seq<u8> {
    "[".spec_bytes() + controls_json_items(cs) + "]".spec_bytes()
}

pub open spec fn all_controls() -> Seq<WindowControl> {
    seq![WindowControl::Minimize, WindowControl::Maximize, WindowControl::Close]
}

/// Append the bytes of `s` to `out`.
fn push_str_bytes(out: &mut Vec<u8>, s: &str)
    ensures
        final(out)@ == old(out)@ + s.spec_bytes(),
{
    let bytes = s.as_bytes();
    let mut k: usize = 0;
    while k < bytes.len()
        invariant
            k <= bytes@.len(),
            bytes@ == s.spec_bytes(),
            out@ == old(out)@ + bytes@.take(k as int),
        decreases bytes@.len() - k,
    {
        out.push(bytes[k]);
        proof {
            assert(out@ =~= old(out)@ + bytes@.take(k as int + 1));
        }
        k = k + 1;
    }
    proof {
        assert(bytes@.take(k as int) =~= bytes@);
    }
}

/// The control list, rendered as the script's JSON-style array of names.
pub fn controls_json(controls: &Vec<WindowControl>) -> (r: Vec<u8>)
    ensures
        r@ == controls_json_spec(controls@),
{
    let mut out: Vec<u8> = Vec::new();
    push_str_bytes(&mut out, "[");
    proof {
        assert(out@ =~= "[".spec_bytes() + controls_json_items(controls@.take(0)));
    }
    let mut i: usize = 0;
    while i < controls.len()
        invariant
            i <= controls@.len(),
            out@ == "[".spec_bytes() + controls_json_items(controls@.take(i as int)),
        decreases controls@.len() - i,
    {
        if i > 0 {
            push_str_bytes(&mut out, ", ");
        }
        push_str_bytes(&mut out, "\"");
        match controls[i] {
            WindowControl::Minimize => push_str_bytes(&mut out, "minimize"),
            WindowControl::Maximize => push_str_bytes(&mut out, "maximize"),
            WindowControl::Close => push_str_bytes(&mut out, "close"),
        }
        push_str_bytes(&mut out, "\"");
        proof {
            assert(controls@.take(i as int + 1).drop_last() =~= controls@.take(i as int));
            assert(controls@.take(i as int + 1).last() == controls@[i as int]);
            assert(out@ =~= "[".spec_bytes() + controls_json_items(controls@.take(i as int + 1)));
        }
        i = i + 1;
    }
    push_str_bytes(&mut out, "]");
    proof {
        assert(controls@.take(i as int) =~= controls@);
        assert(out@ =~= controls_json_spec(controls@));
    }
    out
}

/// The placeholder the script ships with: the list naming all three
/// controls.
pub fn controls_placeholder() -> (r: Vec<u8>)
    ensures
        r@ == controls_json_spec(all_controls()),
{
    let mut cs: Vec<WindowControl> = Vec::new();
    cs.push(WindowControl::Minimize);
    cs.push(WindowControl::Maximize);
    cs.push(WindowControl::Close);
    assert(cs@ =~= all_controls());
    controls_json(&cs)
}

/// `n` occurs in `h` at offset `i`.
pub open spec fn is_match_at(h: Seq<u8>, n: Seq<u8>, i: int) -> bool {
    &&& 0 <= i
    &&& i + n.len() <= h.len()
    &&& h.subrange(i, i + n.len() as int) == n
}

pub open spec fn has_match(h: Seq<u8>, n: Seq<u8>) -> bool {
    exists|i: int| is_match_at(h, n, i)
}

pub open spec fn first_match_from(h: Seq<u8>, n: Seq<u8>, i: int) -> Option<int>
    decreases h.len() + 1 - i,
    when 0 <= i
{
    if i + n.len() > h.len() {
        Option::None
    } else if is_match_at(h, n, i) {
        Option::Some(i)
    } else {
        first_match_from(h, n, i + 1)
    }
}

/// Offset of the first occurrence of `n` in `h`, or `None`.
pub open spec fn first_match(h: Seq<u8>, n: Seq<u8>) -> Option<int> {
    first_match_from(h, n, 0)
}

/// `h` with the first occurrence of `n` replaced by `rep`; `h` itself if
/// `n` does not occur.
pub open spec fn spec_replace_first(h: Seq<u8>, n: Seq<u8>, rep: Seq<u8>) -> Seq<u8> {
    match first_match(h, n) {
        Option::None => h,
        Option::Some(i) => h.subrange(0, i) + rep + h.subrange(i + n.len() as int, h.len() as int),
    }
}

proof fn lemma_first_match_from_is_first(h: Seq<u8>, n: Seq<u8>, i: int)
    requires
        0 <= i,
    ensures
        ({
            match first_match_from(h, n, i) {
                Option::Some(m) => is_match_at(h, n, m) && i <= m && (forall|j: int|
                    i <= j < m ==> !is_match_at(h, n, j)),
                Option::None => forall|j: int| j >= i ==> !is_match_at(h, n, j),
            }
        }),
    decreases h.len() + 1 - i,
{
    if i + n.len() > h.len() {
        assert forall|j: int| j >= i implies !is_match_at(h, n, j) by {
            assert(j + n.len() > h.len());
        }
    } else if is_match_at(h, n, i) {
    } else {
        lemma_first_match_from_is_first(h, n, i + 1);
    }
}

/// What the first-occurrence offset means: it is an occurrence, nothing
/// earlier is one, and it is `None` exactly when the needle never occurs.
pub proof fn lemma_first_match_is_first(h: Seq<u8>, n: Seq<u8>)
    ensures
        ({
            match first_match(h, n) {
                Option::Some(m) => is_match_at(h, n, m) && (forall|j: int|
                    0 <= j < m ==> !is_match_at(h, n, j)),
                Option::None => !has_match(h, n),
            }
        }),
{
    lemma_first_match_from_is_first(h, n, 0);
    if first_match(h, n) is None {
        assert forall|j: int| !is_match_at(h, n, j) by {
            if j >= 0 {
                assert(!is_match_at(h, n, j));
            }
        }
    }
}

/// Offset of the first occurrence of `n` in `h`, if any.
fn find_first(h: &Vec<u8>, n: &Vec<u8>) -> (r: Option<usize>)
    ensures
        r matches Option::Some(i) ==> first_match(h@, n@) == Option::Some(i as int),
        r is None ==> first_match(h@, n@) is None,
{
    if n.len() > h.len() {
        return Option::None;
    }
    let h_len = h.len();
    let mut i: usize = 0;
    while i <= h.len() - n.len()
        invariant
            h@.len() == h_len,
            n@.len() <= h@.len(),
            i <= h@.len() - n@.len() + 1,
            first_match(h@, n@) == first_match_from(h@, n@, i as int),
        decreases h@.len() - n@.len() + 1 - i,
    {
        let mut k: usize = 0;
        while k < n.len()
            invariant
                h@.len() == h_len,
                n@.len() <= h@.len(),
                i + n@.len() <= h@.len(),
                k <= n@.len(),
                forall|t: int| 0 <= t < k ==> h@[i + t] == n@[t],
            ensures
                k <= n@.len(),
                forall|t: int| 0 <= t < k ==> h@[i + t] == n@[t],
                k < n@.len() ==> h@[i + k] != n@[k as int],
            decreases n@.len() - k,
        {
            if h[i + k] != n[k] {
                break ;
            }
            k = k + 1;
        }
        if k == n.len() {
            proof {
                assert(h@.subrange(i as int, i + n@.len() as int) =~= n@);
                assert(first_match_from(h@, n@, i as int) == Option::Some(i as int));
            }
            return Option::Some(i);
        }
        proof {
            assert(!is_match_at(h@, n@, i as int)) by {
                if is_match_at(h@, n@, i as int) {
                    assert(h@.subrange(i as int, i + n@.len() as int)[k as int] == n@[k as int]);
                    assert(h@[i + k] == n@[k as int]);
                }
            }
            assert(first_match_from(h@, n@, i as int) == first_match_from(h@, n@, i as int + 1));
        }
        i = i + 1;
    }
    proof {
        assert(first_match_from(h@, n@, i as int) is None);
    }
    Option::None
}

/// Append `src[from..to]` to `out`.
fn push_byte_range(out: &mut Vec<u8>, src: &Vec<u8>, from: usize, to: usize)
    requires
        from <= to <= src@.len(),
    ensures
        final(out)@ == old(out)@ + src@.subrange(from as int, to as int),
{
    let mut k: usize = from;
    while k < to
        invariant
            from <= k <= to <= src@.len(),
            out@ == old(out)@ + src@.subrange(from as int, k as int),
        decreases to - k,
    {
        out.push(src[k]);
        proof {
            assert(out@ =~= old(out)@ + src@.subrange(from as int, k as int + 1));
        }
        k = k + 1;
    }
}

/// The script with the first occurrence of `needle` replaced by
/// `replacement`; a script without the needle comes back unchanged.
pub fn replace_first(script: &Vec<u8>, needle: &Vec<u8>, replacement: &Vec<u8>) -> (r: Vec<u8>)
    ensures
        r@ == spec_replace_first(script@, needle@, replacement@),
{
    let mut out: Vec<u8> = Vec::new();
    match find_first(script, needle) {
        Option::Some(i) => {
            let script_len = script.len();
            proof {
                lemma_first_match_is_first(script@, needle@);
                assert(is_match_at(script@, needle@, i as int));
            }
            push_byte_range(&mut out, script, 0, i);
            push_byte_range(&mut out, replacement, 0, replacement.len());
            push_byte_range(&mut out, script, i + needle.len(), script_len);
            proof {
                assert(replacement@.subrange(0, replacement@.len() as int) =~= replacement@);
            }
            out
        },
        Option::None => {
            push_byte_range(&mut out, script, 0, script.len());
            proof {
                assert(out@ =~= script@);
            }
            out
        },
    }
}

/// A control the injected script draws itself where the desktop has no
/// native controls; each has a marker in the script that an icon is
/// substituted into.
#[derive(Clone, Copy, Debug, PartialEq, Eq, Structural)]
pub enum LinuxControl {
    Close,
    Minimize,
    Maximize,
    Restore,
}

pub open spec fn control_marker(c: LinuxControl) -> Seq<u8> {
    match c {
        LinuxControl::Close => "@win-close".spec_bytes(),
        LinuxControl::Minimize => "@win-minimize".spec_bytes(),
        LinuxControl::Maximize => "@win-maximize".spec_bytes(),
        LinuxControl::Restore => "@win-restore".spec_bytes(),
    }
}

/// The icon drawn when no icon theme offers one.
pub open spec fn fallback_icon(c: LinuxControl) -> Seq<u8> {
    match c {
        LinuxControl::Close => "<svg viewBox=\"0 0 16 16\"><path d=\"M12.72 3.293a1 1 0 00-1.415 0L8.012 6.586 4.72 3.293a1 1 0 00-1.414 1.414L6.598 8 3.305 11.293a1 1 0 101.414 1.414l3.293-3.293 3.293 3.293a1 1 0 001.414-1.414L9.426 8l3.293-3.293a1 1 0 000-1.414z\"/></svg>".spec_bytes(),
        LinuxControl::Minimize => "<svg viewBox=\"0 0 16 16\"><path d=\"M14 8v1H2V8h12z\"/></svg>".spec_bytes(),
        LinuxControl::Maximize => "<svg viewBox=\"0 0 16 16\"><path d=\"M3 3v10h10V3H3zm9 9H4V4h8v8z\"/></svg>".spec_bytes(),
        LinuxControl::Restore => "<svg viewBox=\"0 0 16 16\"><path d=\"M3 5v8h8V5H3zm7 7H4V6h6v6z M6 3h7v7h-1V4H6V3z\"/></svg>".spec_bytes(),
    }
}

pub open spec fn opt_bytes_view(o: Option<Vec<u8>>) -> Option<Seq<u8>> {
    match o {
        Option::Some(v) => Option::Some(v@),
        Option::None => Option::None,
    }
}

/// The bytes substituted for a control's marker: the icon the desktop's
/// theme offered, or the built-in fallback.
pub open spec fn icon_or_fallback(icon: Option<Seq<u8>>, c: LinuxControl) -> Seq<u8> {
    match icon {
        Option::Some(b) => b,
        Option::None => fallback_icon(c),
    }
}

fn copy_bytes(v: &Vec<u8>) -> (r: Vec<u8>)
    ensures
        r@ == v@,
{
    let mut out: Vec<u8> = Vec::new();
    push_byte_range(&mut out, v, 0, v.len());
    proof {
        assert(out@ =~= v@);
    }
    out
}

fn marker_bytes(c: LinuxControl) -> (r: Vec<u8>)
    ensures
        r@ == control_marker(c),
{
    let mut v: Vec<u8> = Vec::new();
    match c {
        LinuxControl::Close => push_str_bytes(&mut v, "@win-close"),
        LinuxControl::Minimize => push_str_bytes(&mut v, "@win-minimize"),
        LinuxControl::Maximize => push_str_bytes(&mut v, "@win-maximize"),
        LinuxControl::Restore => push_str_bytes(&mut v, "@win-restore"),
    }
    proof {
        assert(v@ =~= control_marker(c));
    }
    v
}

fn fallback_bytes(c: LinuxControl) -> (r: Vec<u8>)
    ensures
        r@ == fallback_icon(c),
{
    let mut v: Vec<u8> = Vec::new();
    match c {
        LinuxControl::Close => push_str_bytes(
            &mut v,
            "<svg viewBox=\"0 0 16 16\"><path d=\"M12.72 3.293a1 1 0 00-1.415 0L8.012 6.586 4.72 3.293a1 1 0 00-1.414 1.414L6.598 8 3.305 11.293a1 1 0 101.414 1.414l3.293-3.293 3.293 3.293a1 1 0 001.414-1.414L9.426 8l3.293-3.293a1 1 0 000-1.414z\"/></svg>",
        ),
        LinuxControl::Minimize => push_str_bytes(
            &mut v,
            "<svg viewBox=\"0 0 16 16\"><path d=\"M14 8v1H2V8h12z\"/></svg>",
        ),
        LinuxControl::Maximize => push_str_bytes(
            &mut v,
            "<svg viewBox=\"0 0 16 16\"><path d=\"M3 3v10h10V3H3zm9 9H4V4h8v8z\"/></svg>",
        ),
        LinuxControl::Restore => push_str_bytes(
            &mut v,
            "<svg viewBox=\"0 0 16 16\"><path d=\"M3 5v8h8V5H3zm7 7H4V6h6v6z M6 3h7v7h-1V4H6V3z\"/></svg>",
        ),
    }
    proof {
        assert(v@ =~= fallback_icon(c));
    }
    v
}

/// Substitute one control's icon (or its fallback) for the control's
/// marker in the script.
fn substitute_icon(script: &Vec<u8>, icon: &Option<Vec<u8>>, c: LinuxControl) -> (r: Vec<u8>)
    ensures
        r@ == spec_replace_first(script@, control_marker(c), icon_or_fallback(opt_bytes_view(*icon), c)),
{
    let marker = marker_bytes(c);
    let repl = match icon {
        Option::Some(b) => copy_bytes(b),
        Option::None => fallback_bytes(c),
    };
    replace_first(script, &marker, &repl)
}

/// The injected script for a desktop that draws its own controls: each
/// control's marker is replaced (first occurrence) with the icon the
/// theme lookup found for it, or with the built-in fallback icon where
/// the lookup found none.
pub fn linux_controls_script(
    script: &Vec<u8>,
    close_icon: &Option<Vec<u8>>,
    minimize_icon: &Option<Vec<u8>>,
    maximize_icon: &Option<Vec<u8>>,
    restore_icon: &Option<Vec<u8>>,
) -> (r: Vec<u8>)
    ensures
        ({
            let s1 = spec_replace_first(
                script@,
                control_marker(LinuxControl::Close),
                icon_or_fallback(opt_bytes_view(*close_icon), LinuxControl::Close),
            );
            let s2 = spec_replace_first(
                s1,
                control_marker(LinuxControl::Minimize),
                icon_or_fallback(opt_bytes_view(*minimize_icon), LinuxControl::Minimize),
            );
            let s3 = spec_replace_first(
                s2,
                control_marker(LinuxControl::Maximize),
                icon_or_fallback(opt_bytes_view(*maximize_icon), LinuxControl::Maximize),
            );
            r@ == spec_replace_first(
                s3,
                control_marker(LinuxControl::Restore),
                icon_or_fallback(opt_bytes_view(*restore_icon), LinuxControl::Restore),
            )
        }),
{
    let s1 = substitute_icon(script, close_icon, LinuxControl::Close);
    let s2 = substitute_icon(&s1, minimize_icon, LinuxControl::Minimize);
    let s3 = substitute_icon(&s2, maximize_icon, LinuxControl::Maximize);
    substitute_icon(&s3, restore_icon, LinuxControl::Restore)
}

/// The injected script, adjusted for one window: the placeholder list of
/// all three controls is replaced (first occurrence only) with the list
/// of controls the window's capability flags enable.
pub fn overlay_controls_script(
    script: &Vec<u8>,
    minimizable: bool,
    maximizable: bool,
    resizable: bool,
    closable: bool,
) -> (r: Vec<u8>)
    ensures
        r@ == spec_replace_first(
            script@,
            controls_json_spec(all_controls()),
            controls_json_spec(spec_enabled_controls(minimizable, maximizable, resizable, closable)),
        ),
{
    let controls = enabled_controls(minimizable, maximizable, resizable, closable);
    let needle = controls_placeholder();
    let repl = controls_json(&controls);
    replace_first(script, &needle, &repl)
}

} // verus!

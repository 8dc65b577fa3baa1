//! Style reconciliation.
//!
//! The host resolves its theme each frame into a small configuration value:
//! the monospace font size in pixels and a palette choice. Applying a
//! configuration to the rendering side is not free, so it happens only on
//! the frames where the resolved value actually differs from the one last
//! applied.

use vstd::prelude::*;

verus! {

/// The resolved style of a frame: font pixel size and palette choice.
#[derive(Clone, Copy, PartialEq, Eq, Structural, Debug)]
pub struct StyleConfig {
    pub font_px: u32,
    pub palette: u32,
}

/// What one reconciliation step does: it records the wanted configuration
/// and reports it exactly when it differs from the one last applied.
pub open spec fn reconcile_post(
    pre: StyleTracker,
    post: StyleTracker,
    want: StyleConfig,
    r: Option<StyleConfig>,
) -> bool {
    &&& post.last == want
    &&& (r is Some <==> want != pre.last)
    &&& (r is Some ==> r == Some(want))
    &&& (r is None ==> post == pre)
}

/// Tracks the configuration last applied and decides when a real
/// reconfiguration must happen.
pub struct StyleTracker {
    /// The configuration most recently applied.
    pub last: StyleConfig,
}

impl StyleTracker {
    pub fn new(initial: StyleConfig) -> (r: StyleTracker)
        ensures
            r == (StyleTracker { last: initial }),
    {
        StyleTracker { last: initial }
    }

    /// Compare the wanted configuration with the last applied one. Returns
    /// `Some(want)` exactly when the caller must now reconfigure; returns
    /// `None`, and changes nothing, when the configuration already holds.
    pub fn reconcile(&mut self, want: StyleConfig) -> (r: Option<StyleConfig>)
        ensures
            reconcile_post(*old(self), *final(self), want, r),
    {
        if want == self.last {
            None
        } else {
            self.last = want;
            Some(want)
        }
    }
}

/// The resolved attributes of one cell cluster, as plain values: colors
/// already packed by the host's palette resolution.
#[derive(Clone, Copy, PartialEq, Eq, Structural, Debug)]
pub struct CellAttrs {
    pub fg: u32,
    pub bg: u32,
    pub underline_color: u32,
    pub italic: bool,
    pub underline: bool,
    pub strikethrough: bool,
}

/// The format one styled span is painted with: foreground and background
/// colors, italics, and the stroke colors of the underline and
/// strikethrough decorations where they are on.
#[derive(Clone, Copy, PartialEq, Eq, Debug)]
pub struct SpanFormat {
    pub color: u32,
    pub background: u32,
    pub italics: bool,
    pub underline: Option<u32>,
    pub strikethrough: Option<u32>,
}

/// Decide the paint format of one cluster from its resolved attributes:
/// foreground, background and italics pass through; an underlined cluster
/// gets an underline stroke in the resolved underline color; a struck
/// cluster gets a strikethrough stroke in the foreground color.
pub fn span_format(attrs: CellAttrs) -> (r: SpanFormat)
    ensures
        r.color == attrs.fg,
        r.background == attrs.bg,
        r.italics == attrs.italic,
        r.underline == (if attrs.underline {
            Some(attrs.underline_color)
        } else {
            None::<u32>
        }),
        r.strikethrough == (if attrs.strikethrough {
            Some(attrs.fg)
        } else {
            None::<u32>
        }),
{
    SpanFormat {
        color: attrs.fg,
        background: attrs.bg,
        italics: attrs.italic,
        underline: if attrs.underline {
            Some(attrs.underline_color)
        } else {
            None
        },
        strikethrough: if attrs.strikethrough {
            Some(attrs.fg)
        } else {
            None
        },
    }
}

/// Style reconciliation is idempotent: of two consecutive reconciliations
/// towards the same configuration, the second reports nothing and changes
/// nothing, so at most one real reconfiguration happens for the pair.
pub proof fn lemma_reconcile_idempotent(
    t0: StyleTracker,
    t1: StyleTracker,
    t2: StyleTracker,
    want: StyleConfig,
    r1: Option<StyleConfig>,
    r2: Option<StyleConfig>,
)
    requires
        reconcile_post(t0, t1, want, r1),
        reconcile_post(t1, t2, want, r2),
    ensures
        r2 is None,
        t2 == t1,
{
}

} // verus!

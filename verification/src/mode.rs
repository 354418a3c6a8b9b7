//! The three rendering modes of the catalogue and how a request names them.
use vstd::prelude::*;

use crate::text::{opt_view, str_equal};

verus! {

/// How the catalogue page is scheduled on the server.
#[derive(Clone, Copy, PartialEq, Eq, Structural, Debug)]
pub enum RenderMode {
    /// Every section awaited in order.
    Sequential,
    /// Independent sections rendered together.
    Concurrent,
    /// The page shell sent at once, sections streamed into slots.
    Streaming,
}

/// The slug that names a mode in a query string.
pub open spec fn mode_slug(m: RenderMode) -> Seq<char> {
    match m {
        RenderMode::Sequential => "sequential"@,
        RenderMode::Concurrent => "concurrent"@,
        RenderMode::Streaming => "streaming"@,
    }
}

/// The label under which a mode is shown.
pub open spec fn mode_label(m: RenderMode) -> Seq<char> {
    match m {
        RenderMode::Sequential => "Sequential"@,
        RenderMode::Concurrent => "Concurrent SSR"@,
        RenderMode::Streaming => "ShellView"@,
    }
}

/// The response time that a mode is expected to show.
pub open spec fn mode_expected(m: RenderMode) -> Seq<char> {
    match m {
        RenderMode::Sequential => "about 1.8 s"@,
        RenderMode::Concurrent => "about 550 ms"@,
        RenderMode::Streaming => "shell immediately"@,
    }
}

/// The mode that a query value selects: `sequential` and `concurrent` select
/// those modes, anything else (or nothing) selects streaming.
pub open spec fn mode_from_query(value: Option<Seq<char>>) -> RenderMode {
    match value {
        Some(v) => if v == "sequential"@ {
            RenderMode::Sequential
        } else if v == "concurrent"@ {
            RenderMode::Concurrent
        } else {
            RenderMode::Streaming
        },
        None => RenderMode::Streaming,
    }
}

impl RenderMode {
    /// Reads the mode from the `mode` query parameter.
    pub fn from_query(value: Option<&str>) -> (r: Self)
        ensures
            r == mode_from_query(opt_view(value)),
    {
        match value {
            Some(v) => {
                if str_equal(v, "sequential") {
                    RenderMode::Sequential
                } else if str_equal(v, "concurrent") {
                    RenderMode::Concurrent
                } else {
                    RenderMode::Streaming
                }
            },
            None => RenderMode::Streaming,
        }
    }

    /// The slug of the mode, as written in links.
    pub fn slug(self) -> (r: &'static str)
        ensures
            r@ == mode_slug(self),
    {
        match self {
            RenderMode::Sequential => "sequential",
            RenderMode::Concurrent => "concurrent",
            RenderMode::Streaming => "streaming",
        }
    }

    /// The label of the mode, as shown in the page header.
    pub fn label(self) -> (r: &'static str)
        ensures
            r@ == mode_label(self),
    {
        match self {
            RenderMode::Sequential => "Sequential",
            RenderMode::Concurrent => "Concurrent SSR",
            RenderMode::Streaming => "ShellView",
        }
    }

    /// The response time that the mode is expected to show.
    pub fn expected(self) -> (r: &'static str)
        ensures
            r@ == mode_expected(self),
    {
        match self {
            RenderMode::Sequential => "about 1.8 s",
            RenderMode::Concurrent => "about 550 ms",
            RenderMode::Streaming => "shell immediately",
        }
    }
}

} // verus!

//! Operating systems, as the runtime ecosystem names them.

use vstd::prelude::*;
use vstd::string::*;
use crate::text::same_text;

verus! {

/// An operating system. One that has no name of its own in the runtime
/// ecosystem keeps the name it came with.
#[allow(non_camel_case_types)]
#[derive(Debug, Clone, PartialEq, Eq)]
pub enum NodePlatform {
    darwin,
    freebsd,
    openbsd,
    win32,
    unknown(String),
}

/// What a `NodePlatform` stands for.
#[allow(non_camel_case_types)]
pub ghost enum PlatformView {
    darwin,
    freebsd,
    openbsd,
    win32,
    unknown(Seq<char>),
}

/// The platform that an operating-system name stands for. Every name stands
/// for one: a name without a variant of its own is carried along unchanged.
pub open spec fn platform_of(s: Seq<char>) -> PlatformView {
    if s == "darwin"@ {
        PlatformView::darwin
    } else if s == "freebsd"@ {
        PlatformView::freebsd
    } else if s == "openbsd"@ {
        PlatformView::openbsd
    } else if s == "windows"@ {
        PlatformView::win32
    } else {
        PlatformView::unknown(s)
    }
}

impl PlatformView {
    /// The name under which the platform is displayed.
    pub open spec fn name(self) -> Seq<char> {
        match self {
            PlatformView::darwin => "darwin"@,
            PlatformView::freebsd => "freebsd"@,
            PlatformView::openbsd => "openbsd"@,
            PlatformView::win32 => "win32"@,
            PlatformView::unknown(s) => s,
        }
    }
}

impl View for NodePlatform {
    type V = PlatformView;

    open spec fn view(&self) -> PlatformView {
        match self {
            NodePlatform::darwin => PlatformView::darwin,
            NodePlatform::freebsd => PlatformView::freebsd,
            NodePlatform::openbsd => PlatformView::openbsd,
            NodePlatform::win32 => PlatformView::win32,
            NodePlatform::unknown(s) => PlatformView::unknown(s@),
        }
    }
}

impl NodePlatform {
    /// Reads an operating-system name. No name is refused.
    pub fn from_str(s: &str) -> (r: NodePlatform)
        ensures
            r@ == platform_of(s@),
    {
        if same_text(s, "darwin") {
            NodePlatform::darwin
        } else if same_text(s, "freebsd") {
            NodePlatform::freebsd
        } else if same_text(s, "openbsd") {
            NodePlatform::openbsd
        } else if same_text(s, "windows") {
            NodePlatform::win32
        } else {
            NodePlatform::unknown(s.to_owned())
        }
    }

    /// The name under which the platform is displayed.
    pub fn to_string(&self) -> (r: String)
        ensures
            r@ == self@.name(),
    {
        match self {
            NodePlatform::darwin => "darwin".to_owned(),
            NodePlatform::freebsd => "freebsd".to_owned(),
            NodePlatform::openbsd => "openbsd".to_owned(),
            NodePlatform::win32 => "win32".to_owned(),
            NodePlatform::unknown(s) => s.clone(),
        }
    }
}

} // verus!

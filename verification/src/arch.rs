//! CPU architectures, as compilers name them and as the runtime ecosystem does.

use vstd::prelude::*;
use vstd::string::*;
use crate::text::same_text;

verus! {

/// A CPU architecture, under the name the runtime ecosystem gives it.
#[allow(non_camel_case_types)]
#[derive(Debug, Clone, Copy, PartialEq, Eq, Structural)]
pub enum NodeArch {
    x32,
    x64,
    ia32,
    arm,
    arm64,
    mips,
    mipsel,
    ppc,
    ppc64,
    s390,
    s390x,
}

/// The architecture that a compiler-style name stands for, if it is one of
/// the eleven known names.
pub open spec fn arch_of(s: Seq<char>) -> Option<NodeArch> {
    if s == "x32"@ {
        Some(NodeArch::x32)
    } else if s == "x86_64"@ {
        Some(NodeArch::x64)
    } else if s == "i686"@ {
        Some(NodeArch::ia32)
    } else if s == "armv7"@ {
        Some(NodeArch::arm)
    } else if s == "aarch64"@ {
        Some(NodeArch::arm64)
    } else if s == "mips"@ {
        Some(NodeArch::mips)
    } else if s == "mipsel"@ {
        Some(NodeArch::mipsel)
    } else if s == "ppc"@ {
        Some(NodeArch::ppc)
    } else if s == "ppc64"@ {
        Some(NodeArch::ppc64)
    } else if s == "s390"@ {
        Some(NodeArch::s390)
    } else if s == "s390x"@ {
        Some(NodeArch::s390x)
    } else {
        None
    }
}

impl NodeArch {
    /// The name by which compilers know the architecture.
    pub open spec fn compiler_name(self) -> Seq<char> {
        match self {
            NodeArch::x32 => "x32"@,
            NodeArch::x64 => "x86_64"@,
            NodeArch::ia32 => "i686"@,
            NodeArch::arm => "armv7"@,
            NodeArch::arm64 => "aarch64"@,
            NodeArch::mips => "mips"@,
            NodeArch::mipsel => "mipsel"@,
            NodeArch::ppc => "ppc"@,
            NodeArch::ppc64 => "ppc64"@,
            NodeArch::s390 => "s390"@,
            NodeArch::s390x => "s390x"@,
        }
    }

    /// The name of the architecture in the runtime ecosystem.
    pub open spec fn name(self) -> Seq<char> {
        match self {
            NodeArch::x32 => "x86"@,
            NodeArch::x64 => "x64"@,
            NodeArch::ia32 => "ia32"@,
            NodeArch::arm => "arm"@,
            NodeArch::arm64 => "arm64"@,
            NodeArch::mips => "mips"@,
            NodeArch::mipsel => "mipsel"@,
            NodeArch::ppc => "ppc"@,
            NodeArch::ppc64 => "ppc64"@,
            NodeArch::s390 => "s390"@,
            NodeArch::s390x => "s390x"@,
        }
    }

    /// The architecture of the CI host that builds for this one. The CI
    /// system tells only two host architectures apart, so every architecture
    /// but the 32-bit x86 is built on an x64 host.
    pub open spec fn host_name(self) -> Seq<char> {
        match self {
            NodeArch::x32 => "x86"@,
            _ => "x64"@,
        }
    }

    /// Reads a compiler-style architecture name. An unknown name gives `None`,
    /// never another architecture.
    pub fn from_str(s: &str) -> (r: Option<NodeArch>)
        ensures
            r == arch_of(s@),
    {
        if same_text(s, "x32") {
            Some(NodeArch::x32)
        } else if same_text(s, "x86_64") {
            Some(NodeArch::x64)
        } else if same_text(s, "i686") {
            Some(NodeArch::ia32)
        } else if same_text(s, "armv7") {
            Some(NodeArch::arm)
        } else if same_text(s, "aarch64") {
            Some(NodeArch::arm64)
        } else if same_text(s, "mips") {
            Some(NodeArch::mips)
        } else if same_text(s, "mipsel") {
            Some(NodeArch::mipsel)
        } else if same_text(s, "ppc") {
            Some(NodeArch::ppc)
        } else if same_text(s, "ppc64") {
            Some(NodeArch::ppc64)
        } else if same_text(s, "s390") {
            Some(NodeArch::s390)
        } else if same_text(s, "s390x") {
            Some(NodeArch::s390x)
        } else {
            None
        }
    }

    /// The runtime-ecosystem name, as a string slice.
    pub fn as_str(&self) -> (r: &'static str)
        ensures
            r@ == self.name(),
    {
        match self {
            NodeArch::x32 => "x86",
            NodeArch::x64 => "x64",
            NodeArch::ia32 => "ia32",
            NodeArch::arm => "arm",
            NodeArch::arm64 => "arm64",
            NodeArch::mips => "mips",
            NodeArch::mipsel => "mipsel",
            NodeArch::ppc => "ppc",
            NodeArch::ppc64 => "ppc64",
            NodeArch::s390 => "s390",
            NodeArch::s390x => "s390x",
        }
    }

    /// The runtime-ecosystem name, as an owned string.
    pub fn to_string(&self) -> (r: String)
        ensures
            r@ == self.name(),
    {
        self.as_str().to_owned()
    }

    /// The name of the CI host architecture that builds for this one.
    pub fn as_github_action_arch(&self) -> (r: &'static str)
        ensures
            r@ == self.host_name(),
    {
        match self {
            NodeArch::x32 => "x86",
            NodeArch::x64 => "x64",
            _ => "x64",
        }
    }
}

/// A name is read as an architecture exactly where it is the compiler name of
/// that architecture: the eleven names are distinct, and no other name is read.
pub proof fn lemma_arch_of_compiler_name(s: Seq<char>, a: NodeArch)
    ensures
        arch_of(s) == Some(a) <==> s == a.compiler_name(),
{
    reveal_strlit("x32");
    reveal_strlit("x86_64");
    reveal_strlit("i686");
    reveal_strlit("armv7");
    reveal_strlit("aarch64");
    reveal_strlit("mips");
    reveal_strlit("mipsel");
    reveal_strlit("ppc");
    reveal_strlit("ppc64");
    reveal_strlit("s390");
    reveal_strlit("s390x");
    assert("x32"@.len() == 3 && "x32"@[0] == 'x');
    assert("x86_64"@.len() == 6 && "x86_64"@[0] == 'x');
    assert("i686"@.len() == 4 && "i686"@[0] == 'i');
    assert("armv7"@.len() == 5 && "armv7"@[0] == 'a');
    assert("aarch64"@.len() == 7 && "aarch64"@[0] == 'a');
    assert("mips"@.len() == 4 && "mips"@[0] == 'm');
    assert("mipsel"@.len() == 6 && "mipsel"@[0] == 'm');
    assert("ppc"@.len() == 3 && "ppc"@[0] == 'p');
    assert("ppc64"@.len() == 5 && "ppc64"@[0] == 'p');
    assert("s390"@.len() == 4 && "s390"@[0] == 's');
    assert("s390x"@.len() == 5 && "s390x"@[0] == 's');
}

} // verus!

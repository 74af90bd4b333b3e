//! What a target triple says of its target: architecture, platform and ABI.

use vstd::prelude::*;
use vstd::string::*;
use crate::arch::{arch_of, NodeArch};
use crate::error::{ResolveError, ResolveErrorView};
use crate::platform::{platform_of, NodePlatform, PlatformView};
use crate::text::{
    lemma_occurs_char, lemma_pieces_cut, lemma_pieces_skip, occurs_at, pieces, pieces_from, split,
    texts,
};

verus! {

/// The attributes read off a target triple. `platform_abi` names the build
/// artifacts of the target.
#[derive(Debug, Clone, PartialEq, Eq)]
pub struct TargetDetail {
    pub platform_abi: String,
    pub arch: NodeArch,
    pub platform: NodePlatform,
    pub abi: Option<String>,
}

/// What a `TargetDetail` stands for.
pub ghost struct TargetDetailView {
    pub platform_abi: Seq<char>,
    pub arch: NodeArch,
    pub platform: PlatformView,
    pub abi: Option<Seq<char>>,
}

/// The view of an optional owned string.
pub open spec fn opt_string(s: Option<String>) -> Option<Seq<char>> {
    match s {
        Some(t) => Some(t@),
        None => None,
    }
}

impl View for TargetDetail {
    type V = TargetDetailView;

    open spec fn view(&self) -> TargetDetailView {
        TargetDetailView {
            platform_abi: self.platform_abi@,
            arch: self.arch,
            platform: self.platform@,
            abi: opt_string(self.abi),
        }
    }
}

/// The fields of a triple: its pieces between dashes.
pub open spec fn fields(triple: Seq<char>) -> Seq<Seq<char>> {
    pieces(triple, seq!['-'])
}

/// The artifact key: platform and architecture joined by a dash, followed by
/// a dash and the ABI where there is one.
pub open spec fn platform_abi_of(platform: PlatformView, arch: NodeArch, abi: Option<Seq<char>>) -> Seq<
    char,
> {
    let stem = platform.name() + seq!['-'] + arch.name();
    match abi {
        Some(a) => stem + seq!['-'] + a,
        None => stem,
    }
}

/// Whether a triple can be read: it has at least three fields, and the first
/// names a known architecture.
pub open spec fn parsable(triple: Seq<char>) -> bool {
    &&& fields(triple).len() >= 3
    &&& arch_of(fields(triple)[0]) is Some
}

/// Why a triple cannot be read, if it cannot. Too few fields are reported
/// before an unknown architecture.
pub open spec fn parse_failure(triple: Seq<char>) -> Option<ResolveErrorView> {
    if fields(triple).len() < 3 {
        Some(ResolveErrorView::TooFewFields)
    } else if arch_of(fields(triple)[0]) is None {
        Some(ResolveErrorView::UnsupportedArch(fields(triple)[0]))
    } else {
        None
    }
}

/// A triple can be read exactly where nothing is reported against it.
pub proof fn lemma_parsable_iff_no_failure(triple: Seq<char>)
    ensures
        parsable(triple) <==> parse_failure(triple) is None,
{
}

/// What a readable triple says. The architecture is the first field, the
/// operating system the third, whatever stands between them, and the ABI the
/// fourth, where there is one.
pub open spec fn detail_of(triple: Seq<char>) -> TargetDetailView
    recommends
        parsable(triple),
{
    let parts = fields(triple);
    let arch = arch_of(parts[0])->0;
    let platform = platform_of(parts[2]);
    let abi = if parts.len() > 3 {
        Some(parts[3])
    } else {
        None
    };
    TargetDetailView { platform_abi: platform_abi_of(platform, arch, abi), arch, platform, abi }
}

/// A triple whose first dash ends a known architecture name, and which has a
/// second dash, can be read.
pub proof fn lemma_parsable(triple: Seq<char>, first: int, second: int)
    requires
        0 <= first < second < triple.len(),
        triple[first] == '-',
        triple[second] == '-',
        forall|k: int| 0 <= k < first ==> triple[k] != '-',
        arch_of(triple.subrange(0, first)) is Some,
    ensures
        parsable(triple),
        fields(triple)[0] == triple.subrange(0, first),
{
    let dash = seq!['-'];
    assert forall|k: int| 0 <= k < first implies !occurs_at(triple, dash, k) by {
        lemma_occurs_char(triple, '-', k);
    }
    lemma_pieces_skip(triple, dash, 0, 0, first);
    lemma_occurs_char(triple, '-', first);
    lemma_occurs_char(triple, '-', second);
    lemma_pieces_cut(triple, dash, first + 1, first + 1, second);
    assert(pieces_from(triple, dash, 0, first) == seq![triple.subrange(0, first)] + pieces_from(
        triple,
        dash,
        first + 1,
        first + 1,
    ));
}

impl TargetDetail {
    /// Reads a triple, or says why it cannot be read.
    pub fn parse(triple: &str) -> (r: Result<TargetDetail, ResolveError>)
        ensures
            match r {
                Ok(d) => parsable(triple@) && d@ == detail_of(triple@),
                Err(e) => !parsable(triple@) && parse_failure(triple@) == Some(e@),
            },
    {
        proof {
            reveal_strlit("-");
            assert("-"@ =~= seq!['-']);
        }
        let parts = split(triple, "-");
        assert(texts(parts@) == fields(triple@));
        if parts.len() < 3 {
            return Err(ResolveError::TooFewFields);
        }
        assert(texts(parts@)[0] == parts@[0]@);
        assert(texts(parts@)[2] == parts@[2]@);
        let arch = match NodeArch::from_str(parts[0].as_str()) {
            Some(a) => a,
            None => {
                return Err(ResolveError::UnsupportedArch(parts[0].clone()));
            },
        };
        let platform = NodePlatform::from_str(parts[2].as_str());
        let mut platform_abi = platform.to_string();
        platform_abi.append("-");
        platform_abi.append(arch.as_str());
        let abi = if parts.len() > 3 {
            assert(texts(parts@)[3] == parts@[3]@);
            platform_abi.append("-");
            platform_abi.append(parts[3].as_str());
            Some(parts[3].clone())
        } else {
            None
        };
        Ok(TargetDetail { platform_abi, arch, platform, abi })
    }

    /// Reads a triple that can be read.
    pub fn from(triple: &str) -> (r: TargetDetail)
        requires
            parsable(triple@),
        ensures
            r@ == detail_of(triple@),
    {
        match Self::parse(triple) {
            Ok(d) => d,
            Err(_) => {
                proof {
                    assert(false);
                }
                unreached()
            },
        }
    }
}

} // verus!

//! The CI configuration that each supported target is built with.

use vstd::prelude::*;
use vstd::string::*;
use crate::text::{pieces, same_text, split, texts, trim, trimmed};

verus! {

/// How a CI workflow builds for one target: the host to run on, the container
/// image to run in, if any, and the commands that prepare the host, if any,
/// joined by `&&`.
#[derive(Clone, Debug, PartialEq, Eq)]
pub struct GithubWorkflowConfig {
    pub host: &'static str,
    pub docker_image: Option<&'static str>,
    pub setup: Option<&'static str>,
}

/// What a `GithubWorkflowConfig` stands for.
pub ghost struct GithubWorkflowConfigView {
    pub host: Seq<char>,
    pub docker_image: Option<Seq<char>>,
    pub setup: Option<Seq<char>>,
}

/// The view of an optional string slice.
pub open spec fn opt_text(s: Option<&'static str>) -> Option<Seq<char>> {
    match s {
        Some(t) => Some(t@),
        None => None,
    }
}

impl View for GithubWorkflowConfig {
    type V = GithubWorkflowConfigView;

    open spec fn view(&self) -> GithubWorkflowConfigView {
        GithubWorkflowConfigView {
            host: self.host@,
            docker_image: opt_text(self.docker_image),
            setup: opt_text(self.setup),
        }
    }
}

/// A configuration with a host only.
pub open spec fn on_host(host: Seq<char>) -> GithubWorkflowConfigView {
    GithubWorkflowConfigView { host, docker_image: None, setup: None }
}

/// A configuration with a host and a container image.
pub open spec fn in_image(host: Seq<char>, image: Seq<char>) -> GithubWorkflowConfigView {
    GithubWorkflowConfigView { host, docker_image: Some(image), setup: None }
}

/// A configuration with a host and setup commands.
pub open spec fn with_setup(host: Seq<char>, setup: Seq<char>) -> GithubWorkflowConfigView {
    GithubWorkflowConfigView { host, docker_image: None, setup: Some(setup) }
}

/// The table of configurations. A triple is found only if it is written
/// exactly as in the table.
pub open spec fn config_of(triple: Seq<char>) -> Option<GithubWorkflowConfigView> {
    if triple == "x86_64-apple-darwin"@ {
        Some(on_host("macos-latest"@))
    } else if triple == "x86_64-pc-windows-msvc"@ {
        Some(on_host("windows-latest"@))
    } else if triple == "i686-pc-windows-msvc"@ {
        Some(on_host("windows-latest"@))
    } else if triple == "x86_64-unknown-linux-gnu"@ {
        Some(in_image("ubuntu-latest"@, "napi-rs/nodejs-rust:lts-debian"@))
    } else if triple == "x86_64-unknown-linux-musl"@ {
        Some(in_image("ubuntu-latest"@, "napi-rs/nodejs-rust:lts-alpine"@))
    } else if triple == "x86_64-unknown-freebsd"@ {
        Some(on_host("ubuntu-latest"@))
    } else if triple == "aarch64-apple-darwin"@ {
        Some(on_host("macos-latest"@))
    } else if triple == "aarch64-unknown-linux-gnu"@ {
        Some(
            with_setup(
                "ubuntu-latest"@,
                "sudo apt-get update && sudo apt-get install g++-aarch64-linux-gnu gcc-aarch64-linux-gnu -y"@,
            ),
        )
    } else if triple == "aarch64-unknown-linux-musl"@ {
        Some(in_image("ubuntu-latest"@, "napi-rs/nodejs-rust:lts-alpine"@))
    } else if triple == "aarch64-pc-windows-msvc"@ {
        Some(on_host("windows-latest"@))
    } else if triple == "aarch64-linux-android"@ {
        Some(on_host("ubuntu-latest"@))
    } else if triple == "armv7-unknown-linux-gnueabihf"@ {
        Some(
            with_setup(
                "ubuntu-latest"@,
                "sudo apt-get update && sudo apt-get install gcc-arm-linux-gnueabihf g++-arm-linux-gnueabihf -y"@,
            ),
        )
    } else if triple == "armv7-linux-androideabi"@ {
        Some(on_host("ubuntu-latest"@))
    } else {
        None
    }
}

/// The commands of a setup string: its pieces between `&&`, each trimmed, in
/// order.
pub open spec fn setup_steps(setup: Seq<char>) -> Seq<Seq<char>> {
    pieces(setup, seq!['&', '&']).map_values(|p: Seq<char>| trimmed(p))
}

impl Default for GithubWorkflowConfig {
    fn default() -> (r: GithubWorkflowConfig)
        ensures
            r@ == on_host(Seq::<char>::empty()),
    {
        proof {
            reveal_strlit("");
            assert(""@ =~= Seq::<char>::empty());
        }
        GithubWorkflowConfig { host: "", docker_image: None, setup: None }
    }
}

impl GithubWorkflowConfig {
    /// A configuration with a host only.
    fn hosted(host: &'static str) -> (r: GithubWorkflowConfig)
        ensures
            r@ == on_host(host@),
    {
        GithubWorkflowConfig { host, docker_image: None, setup: None }
    }

    /// A configuration with a host and a container image.
    fn contained(host: &'static str, image: &'static str) -> (r: GithubWorkflowConfig)
        ensures
            r@ == in_image(host@, image@),
    {
        GithubWorkflowConfig { host, docker_image: Some(image), setup: None }
    }

    /// A configuration with a host and setup commands.
    fn prepared(host: &'static str, setup: &'static str) -> (r: GithubWorkflowConfig)
        ensures
            r@ == with_setup(host@, setup@),
    {
        GithubWorkflowConfig { host, docker_image: None, setup: Some(setup) }
    }

    /// Looks a triple up in the table of configurations.
    pub fn lookup(triple: &str) -> (r: Option<GithubWorkflowConfig>)
        ensures
            match r {
                Some(c) => config_of(triple@) == Some(c@),
                None => config_of(triple@) is None,
            },
    {
        if same_text(triple, "x86_64-apple-darwin") {
            Some(Self::hosted("macos-latest"))
        } else if same_text(triple, "x86_64-pc-windows-msvc") {
            Some(Self::hosted("windows-latest"))
        } else if same_text(triple, "i686-pc-windows-msvc") {
            Some(Self::hosted("windows-latest"))
        } else if same_text(triple, "x86_64-unknown-linux-gnu") {
            Some(Self::contained("ubuntu-latest", "napi-rs/nodejs-rust:lts-debian"))
        } else if same_text(triple, "x86_64-unknown-linux-musl") {
            Some(Self::contained("ubuntu-latest", "napi-rs/nodejs-rust:lts-alpine"))
        } else if same_text(triple, "x86_64-unknown-freebsd") {
            Some(Self::hosted("ubuntu-latest"))
        } else if same_text(triple, "aarch64-apple-darwin") {
            Some(Self::hosted("macos-latest"))
        } else if same_text(triple, "aarch64-unknown-linux-gnu") {
            Some(
                Self::prepared(
                    "ubuntu-latest",
                    "sudo apt-get update && sudo apt-get install g++-aarch64-linux-gnu gcc-aarch64-linux-gnu -y",
                ),
            )
        } else if same_text(triple, "aarch64-unknown-linux-musl") {
            Some(Self::contained("ubuntu-latest", "napi-rs/nodejs-rust:lts-alpine"))
        } else if same_text(triple, "aarch64-pc-windows-msvc") {
            Some(Self::hosted("windows-latest"))
        } else if same_text(triple, "aarch64-linux-android") {
            Some(Self::hosted("ubuntu-latest"))
        } else if same_text(triple, "armv7-unknown-linux-gnueabihf") {
            Some(
                Self::prepared(
                    "ubuntu-latest",
                    "sudo apt-get update && sudo apt-get install gcc-arm-linux-gnueabihf g++-arm-linux-gnueabihf -y",
                ),
            )
        } else if same_text(triple, "armv7-linux-androideabi") {
            Some(Self::hosted("ubuntu-latest"))
        } else {
            None
        }
    }

    /// The setup commands one by one, as they are handed on to the CI
    /// configuration; `None` where the target needs no setup.
    pub fn setup_commands(&self) -> (r: Option<Vec<String>>)
        ensures
            match r {
                Some(steps) => self@.setup is Some && texts(steps@) == setup_steps(self@.setup->0),
                None => self@.setup is None,
            },
    {
        match self.setup {
            None => None,
            Some(setup) => Some(split_setup(setup)),
        }
    }
}

/// Cuts a setup string at each `&&` and trims the commands.
pub fn split_setup(setup: &str) -> (steps: Vec<String>)
    ensures
        texts(steps@) == setup_steps(setup@),
{
    proof {
        reveal_strlit("&&");
        assert("&&"@ =~= seq!['&', '&']);
    }
    let parts = split(setup, "&&");
    let mut steps: Vec<String> = Vec::new();
    let mut i: usize = 0;
    while i < parts.len()
        invariant
            i <= parts.len(),
            texts(parts@) == pieces(setup@, seq!['&', '&']),
            steps.len() == i,
            forall|k: int| 0 <= k < i ==> (#[trigger] steps@[k])@ == trimmed(parts@[k]@),
        decreases parts.len() - i,
    {
        let step = trim(parts[i].as_str());
        steps.push(step);
        i = i + 1;
    }
    assert(texts(steps@) =~= setup_steps(setup@)) by {
        assert forall|k: int| 0 <= k < steps.len() implies texts(steps@)[k] == setup_steps(
            setup@,
        )[k] by {
            assert(texts(parts@)[k] == parts@[k]@);
        }
    }
    steps
}

} // verus!

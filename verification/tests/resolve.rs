use build_target::arch::NodeArch;
use build_target::detail::TargetDetail;
use build_target::error::ResolveError;
use build_target::platform::NodePlatform;
use build_target::registry::{AVAILABLE_TARGETS, DEFAULT_TARGETS};
use build_target::target::Target;
use build_target::workflow::{split_setup, GithubWorkflowConfig};

#[test]
fn every_available_target_resolves_to_its_own_triple() {
    assert_eq!(AVAILABLE_TARGETS.len(), 13);
    for triple in AVAILABLE_TARGETS {
        let target = Target::try_new(triple);
        assert!(target.is_ok(), "{}", triple);
        let target = target.unwrap();
        assert_eq!(target.triple, triple);
        assert_eq!(Target::new(triple), target);
    }
}

#[test]
fn every_available_target_has_a_configuration() {
    for triple in AVAILABLE_TARGETS {
        assert!(GithubWorkflowConfig::lookup(triple).is_some(), "{}", triple);
    }
}

#[test]
fn available_targets_are_listed_in_order() {
    assert_eq!(
        AVAILABLE_TARGETS.to_vec(),
        vec![
            "aarch64-apple-darwin",
            "aarch64-linux-android",
            "aarch64-unknown-linux-gnu",
            "aarch64-unknown-linux-musl",
            "aarch64-pc-windows-msvc",
            "x86_64-apple-darwin",
            "x86_64-pc-windows-msvc",
            "x86_64-unknown-linux-gnu",
            "x86_64-unknown-linux-musl",
            "x86_64-unknown-freebsd",
            "i686-pc-windows-msvc",
            "armv7-unknown-linux-gnueabihf",
            "armv7-linux-androideabi",
        ]
    );
}

#[test]
fn default_targets_are_three_of_the_available_ones() {
    assert_eq!(
        DEFAULT_TARGETS.to_vec(),
        vec!["x86_64-apple-darwin", "x86_64-pc-windows-msvc", "x86_64-unknown-linux-gnu"]
    );
    for triple in &DEFAULT_TARGETS {
        assert!(AVAILABLE_TARGETS.contains(triple));
    }
    assert!(AVAILABLE_TARGETS.len() > DEFAULT_TARGETS.len());
    assert!(AVAILABLE_TARGETS.iter().any(|t| !DEFAULT_TARGETS.contains(t)));
}

#[test]
fn darwin_on_x64_has_no_abi() {
    let detail = TargetDetail::from("x86_64-apple-darwin");
    assert_eq!(detail.arch, NodeArch::x64);
    assert_eq!(detail.platform, NodePlatform::darwin);
    assert_eq!(detail.abi, None);
    assert_eq!(detail.platform_abi, "darwin-x64");
}

#[test]
fn linux_musl_on_arm64_keeps_its_abi() {
    let detail = TargetDetail::from("aarch64-unknown-linux-musl");
    assert_eq!(detail.arch, NodeArch::arm64);
    assert_eq!(detail.platform, NodePlatform::unknown("linux".to_string()));
    assert_eq!(detail.abi, Some("musl".to_string()));
    assert_eq!(detail.platform_abi, "linux-arm64-musl");
}

#[test]
fn linux_gnueabihf_on_arm_keeps_its_abi() {
    let detail = TargetDetail::from("armv7-unknown-linux-gnueabihf");
    assert_eq!(detail.arch, NodeArch::arm);
    assert_eq!(detail.platform, NodePlatform::unknown("linux".to_string()));
    assert_eq!(detail.abi, Some("gnueabihf".to_string()));
    assert_eq!(detail.platform_abi, "linux-arm-gnueabihf");
}

#[test]
fn windows_targets_are_win32() {
    let detail = TargetDetail::from("aarch64-pc-windows-msvc");
    assert_eq!(detail.platform, NodePlatform::win32);
    assert_eq!(detail.abi, Some("msvc".to_string()));
    assert_eq!(detail.platform_abi, "win32-arm64-msvc");
}

#[test]
fn the_platform_is_the_third_field_whatever_the_second_is() {
    let detail = TargetDetail::from("aarch64-linux-android");
    assert_eq!(detail.platform, NodePlatform::unknown("android".to_string()));
    assert_eq!(detail.abi, None);
    assert_eq!(detail.platform_abi, "android-arm64");
    let detail = TargetDetail::from("armv7-linux-androideabi");
    assert_eq!(detail.platform_abi, "androideabi-arm");
    let detail = TargetDetail::from("x86_64-unknown-freebsd");
    assert_eq!(detail.platform, NodePlatform::freebsd);
    assert_eq!(detail.platform_abi, "freebsd-x64");
}

#[test]
fn fields_after_the_fourth_are_ignored() {
    let detail = TargetDetail::parse("mips-a-openbsd-b-c").unwrap();
    assert_eq!(detail.arch, NodeArch::mips);
    assert_eq!(detail.platform, NodePlatform::openbsd);
    assert_eq!(detail.abi, Some("b".to_string()));
    assert_eq!(detail.platform_abi, "openbsd-mips-b");
}

#[test]
fn empty_fields_are_fields() {
    let detail = TargetDetail::parse("x32---").unwrap();
    assert_eq!(detail.arch, NodeArch::x32);
    assert_eq!(detail.platform, NodePlatform::unknown(String::new()));
    assert_eq!(detail.abi, Some(String::new()));
    assert_eq!(detail.platform_abi, "-x86-");
}

#[test]
fn i686_is_displayed_as_ia32() {
    let target = Target::new("i686-pc-windows-msvc");
    assert_eq!(target.detail.arch, NodeArch::ia32);
    assert_eq!(target.detail.arch.to_string(), "ia32");
    assert_eq!(target.detail.arch.as_str(), "ia32");
    assert_eq!(target.detail.platform.to_string(), "win32");
    assert_eq!(target.detail.platform_abi, "win32-ia32-msvc");
}

#[test]
fn setup_is_split_into_trimmed_commands() {
    let steps = split_setup(
        "sudo apt-get update && sudo apt-get install g++-aarch64-linux-gnu gcc-aarch64-linux-gnu -y",
    );
    assert_eq!(
        steps,
        vec![
            "sudo apt-get update".to_string(),
            "sudo apt-get install g++-aarch64-linux-gnu gcc-aarch64-linux-gnu -y".to_string(),
        ]
    );
    let target = Target::new("aarch64-unknown-linux-gnu");
    assert_eq!(target.github_workflow_config.setup_commands(), Some(steps));
    let target = Target::new("armv7-unknown-linux-gnueabihf");
    assert_eq!(
        target.github_workflow_config.setup_commands(),
        Some(vec![
            "sudo apt-get update".to_string(),
            "sudo apt-get install gcc-arm-linux-gnueabihf g++-arm-linux-gnueabihf -y".to_string(),
        ])
    );
}

#[test]
fn no_setup_gives_no_commands() {
    let target = Target::new("x86_64-apple-darwin");
    assert_eq!(target.github_workflow_config.setup, None);
    assert_eq!(target.github_workflow_config.setup_commands(), None);
}

#[test]
fn setup_without_separator_is_one_command() {
    assert_eq!(split_setup("  make all "), vec!["make all".to_string()]);
    assert_eq!(split_setup(""), vec![String::new()]);
    assert_eq!(split_setup("a&&&&b & c"), vec!["a".to_string(), String::new(), "b & c".to_string()]);
}

#[test]
fn an_unknown_architecture_is_not_resolved() {
    assert_eq!(NodeArch::from_str("riscv64"), None);
    assert_eq!(NodeArch::from_str("x86"), None);
    assert_eq!(NodeArch::from_str(""), None);
    assert_eq!(NodeArch::from_str("X86_64"), None);
    let refused = ResolveError::UnsupportedArch("riscv64".to_string());
    assert_eq!(TargetDetail::parse("riscv64-unknown-linux-gnu"), Err(refused.clone()));
    assert_eq!(Target::try_new("riscv64-unknown-linux-gnu"), Err(refused.clone()));
    assert_eq!(refused.message(), "unsupported cpu arch riscv64");
    assert_eq!(
        Target::try_new("-apple-darwin"),
        Err(ResolveError::UnsupportedArch(String::new()))
    );
}

#[test]
fn an_unknown_architecture_is_reported_before_a_missing_configuration() {
    assert_eq!(GithubWorkflowConfig::lookup("sparc-sun-solaris"), None);
    assert_eq!(
        Target::try_new("sparc-sun-solaris"),
        Err(ResolveError::UnsupportedArch("sparc".to_string()))
    );
}

#[test]
fn errors_are_reported_in_words() {
    assert_eq!(ResolveError::TooFewFields.message(), "target triple has fewer than three fields");
    assert_eq!(
        ResolveError::UnsupportedArch("x86".to_string()).message(),
        "unsupported cpu arch x86"
    );
    assert_eq!(ResolveError::NotConfigured.message(), "target has no workflow configuration");
}

#[test]
fn a_triple_with_fewer_than_three_fields_is_not_resolved() {
    assert_eq!(TargetDetail::parse("x86_64"), Err(ResolveError::TooFewFields));
    assert_eq!(TargetDetail::parse("x86_64-apple"), Err(ResolveError::TooFewFields));
    assert_eq!(TargetDetail::parse(""), Err(ResolveError::TooFewFields));
    assert_eq!(TargetDetail::parse("riscv64-unknown"), Err(ResolveError::TooFewFields));
    assert_eq!(Target::try_new("x86_64-apple"), Err(ResolveError::TooFewFields));
}

#[test]
fn a_triple_without_configuration_is_not_resolved() {
    assert!(TargetDetail::parse("x86_64-unknown-openbsd").is_ok());
    assert_eq!(GithubWorkflowConfig::lookup("x86_64-unknown-openbsd"), None);
    assert_eq!(Target::try_new("x86_64-unknown-openbsd"), Err(ResolveError::NotConfigured));
    assert_eq!(GithubWorkflowConfig::lookup("x86_64-apple-darwin "), None);
    assert_eq!(GithubWorkflowConfig::lookup("x86_64-apple"), None);
}

#[test]
fn architectures_are_read_by_their_compiler_names() {
    assert_eq!(NodeArch::from_str("x32"), Some(NodeArch::x32));
    assert_eq!(NodeArch::from_str("x86_64"), Some(NodeArch::x64));
    assert_eq!(NodeArch::from_str("i686"), Some(NodeArch::ia32));
    assert_eq!(NodeArch::from_str("armv7"), Some(NodeArch::arm));
    assert_eq!(NodeArch::from_str("aarch64"), Some(NodeArch::arm64));
    assert_eq!(NodeArch::from_str("mips"), Some(NodeArch::mips));
    assert_eq!(NodeArch::from_str("mipsel"), Some(NodeArch::mipsel));
    assert_eq!(NodeArch::from_str("ppc"), Some(NodeArch::ppc));
    assert_eq!(NodeArch::from_str("ppc64"), Some(NodeArch::ppc64));
    assert_eq!(NodeArch::from_str("s390"), Some(NodeArch::s390));
    assert_eq!(NodeArch::from_str("s390x"), Some(NodeArch::s390x));
}

#[test]
fn architectures_are_displayed_by_their_runtime_names() {
    assert_eq!(NodeArch::x32.to_string(), "x86");
    assert_eq!(NodeArch::x64.to_string(), "x64");
    assert_eq!(NodeArch::ia32.to_string(), "ia32");
    assert_eq!(NodeArch::arm.to_string(), "arm");
    assert_eq!(NodeArch::arm64.to_string(), "arm64");
    assert_eq!(NodeArch::mips.to_string(), "mips");
    assert_eq!(NodeArch::mipsel.to_string(), "mipsel");
    assert_eq!(NodeArch::ppc.to_string(), "ppc");
    assert_eq!(NodeArch::ppc64.to_string(), "ppc64");
    assert_eq!(NodeArch::s390.to_string(), "s390");
    assert_eq!(NodeArch::s390x.to_string(), "s390x");
}

#[test]
fn only_x32_is_built_on_an_x86_host() {
    assert_eq!(NodeArch::x32.as_github_action_arch(), "x86");
    assert_eq!(NodeArch::x64.as_github_action_arch(), "x64");
    assert_eq!(NodeArch::ia32.as_github_action_arch(), "x64");
    assert_eq!(NodeArch::arm.as_github_action_arch(), "x64");
    assert_eq!(NodeArch::arm64.as_github_action_arch(), "x64");
    assert_eq!(NodeArch::s390x.as_github_action_arch(), "x64");
}

#[test]
fn platforms_are_read_and_displayed() {
    assert_eq!(NodePlatform::from_str("darwin"), NodePlatform::darwin);
    assert_eq!(NodePlatform::from_str("freebsd"), NodePlatform::freebsd);
    assert_eq!(NodePlatform::from_str("openbsd"), NodePlatform::openbsd);
    assert_eq!(NodePlatform::from_str("windows"), NodePlatform::win32);
    assert_eq!(NodePlatform::from_str("win32"), NodePlatform::unknown("win32".to_string()));
    assert_eq!(NodePlatform::from_str("linux"), NodePlatform::unknown("linux".to_string()));
    assert_eq!(NodePlatform::from_str(""), NodePlatform::unknown(String::new()));
    assert_eq!(NodePlatform::darwin.to_string(), "darwin");
    assert_eq!(NodePlatform::freebsd.to_string(), "freebsd");
    assert_eq!(NodePlatform::openbsd.to_string(), "openbsd");
    assert_eq!(NodePlatform::win32.to_string(), "win32");
    assert_eq!(NodePlatform::unknown("linux".to_string()).to_string(), "linux");
}

#[test]
fn configurations_are_those_of_the_table() {
    let c = GithubWorkflowConfig::lookup("x86_64-apple-darwin").unwrap();
    assert_eq!((c.host, c.docker_image, c.setup), ("macos-latest", None, None));
    let c = GithubWorkflowConfig::lookup("aarch64-apple-darwin").unwrap();
    assert_eq!((c.host, c.docker_image, c.setup), ("macos-latest", None, None));
    for triple in ["x86_64-pc-windows-msvc", "i686-pc-windows-msvc", "aarch64-pc-windows-msvc"] {
        let c = GithubWorkflowConfig::lookup(triple).unwrap();
        assert_eq!((c.host, c.docker_image, c.setup), ("windows-latest", None, None));
    }
    let c = GithubWorkflowConfig::lookup("x86_64-unknown-linux-gnu").unwrap();
    assert_eq!(
        (c.host, c.docker_image, c.setup),
        ("ubuntu-latest", Some("napi-rs/nodejs-rust:lts-debian"), None)
    );
    for triple in ["x86_64-unknown-linux-musl", "aarch64-unknown-linux-musl"] {
        let c = GithubWorkflowConfig::lookup(triple).unwrap();
        assert_eq!(
            (c.host, c.docker_image, c.setup),
            ("ubuntu-latest", Some("napi-rs/nodejs-rust:lts-alpine"), None)
        );
    }
    for triple in ["x86_64-unknown-freebsd", "aarch64-linux-android", "armv7-linux-androideabi"] {
        let c = GithubWorkflowConfig::lookup(triple).unwrap();
        assert_eq!((c.host, c.docker_image, c.setup), ("ubuntu-latest", None, None));
    }
    let c = GithubWorkflowConfig::lookup("aarch64-unknown-linux-gnu").unwrap();
    assert_eq!(
        (c.host, c.docker_image, c.setup),
        (
            "ubuntu-latest",
            None,
            Some("sudo apt-get update && sudo apt-get install g++-aarch64-linux-gnu gcc-aarch64-linux-gnu -y")
        )
    );
    let c = GithubWorkflowConfig::lookup("armv7-unknown-linux-gnueabihf").unwrap();
    assert_eq!(
        (c.host, c.docker_image, c.setup),
        (
            "ubuntu-latest",
            None,
            Some("sudo apt-get update && sudo apt-get install gcc-arm-linux-gnueabihf g++-arm-linux-gnueabihf -y")
        )
    );
}

#[test]
fn the_default_configuration_is_empty() {
    let c = GithubWorkflowConfig::default();
    assert_eq!((c.host, c.docker_image, c.setup), ("", None, None));
}

#[test]
fn resolving_twice_gives_the_same_target() {
    for triple in AVAILABLE_TARGETS {
        assert_eq!(Target::new(triple), Target::new(triple));
    }
}

#[test]
fn a_resolved_target_joins_detail_and_configuration() {
    let target = Target::new("x86_64-unknown-linux-musl");
    assert_eq!(target.triple, "x86_64-unknown-linux-musl");
    assert_eq!(target.detail, TargetDetail::from("x86_64-unknown-linux-musl"));
    assert_eq!(
        Some(target.github_workflow_config),
        GithubWorkflowConfig::lookup("x86_64-unknown-linux-musl")
    );
}

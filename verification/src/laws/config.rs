//! The configuration: release targets, and what the updater is told.

use vstd::prelude::*;

use crate::config::{target_of, CatalogConfig};

verus! {

/// Three platforms have a release target, each its own, and no other has one.
pub proof fn three_platforms_have_a_target(os: Seq<char>, arch: Seq<char>)
    ensures
        target_of(os, arch) is Some <==> {
            ||| os == "linux"@ && (arch == "x86_64"@ || arch == "aarch64"@)
            ||| os == "windows"@ && arch == "x86_64"@
        },
        os == "linux"@ && arch == "x86_64"@ ==> target_of(os, arch) == Some("linux-x86_64"@),
        os == "linux"@ && arch == "aarch64"@ ==> target_of(os, arch) == Some("linux-arm64"@),
        os == "windows"@ && arch == "x86_64"@ ==> target_of(os, arch) == Some("windows-x86_64"@),
{
    reveal_strlit("linux");
    reveal_strlit("windows");
    reveal_strlit("x86_64");
    reveal_strlit("aarch64");
    assert("linux"@.len() != "windows"@.len());
    assert("x86_64"@.len() != "aarch64"@.len());
}

/// The updater is told everything the catalog is configured with, field by
/// field, and installs where the catalog keeps its files.
pub proof fn the_updater_is_told_everything<W>(config: CatalogConfig<W>)
    ensures
        config.for_updater().install_root == config.root,
        config.for_updater().cache_dir == config.cache_dir,
        config.for_updater().trust_state_dir == config.trust_state_dir,
        config.for_updater().channel == config.channel,
        config.for_updater().embedded_root == config.embedded_root,
        config.for_updater().target == Some(config.target),
        config.for_updater().check_interval == config.check_interval,
        config.for_updater().auto_apply == config.auto_apply,
        config.for_updater().workers == config.workers,
{
}

} // verus!

//! What one catalog is configured with.

use vstd::prelude::*;

use crate::text::same;
use crate::tree::TreePath;

verus! {

/// Constructing the catalog failed; everything after construction is not
/// fatal and lands in the activation record instead.
#[derive(Debug)]
pub enum Error {
    /// The updater could not be constructed, and this is why.
    Updater(String),
}

impl Error {
    /// What the error says.
    pub fn message(&self) -> (r: &'static str)
        ensures
            r@ == "the updater could not be constructed"@,
    {
        "the updater could not be constructed"
    }
}

/// The update channel to follow.
#[derive(Debug)]
pub struct ChannelConfig {
    /// Where the channel's metadata is published.
    pub metadata_base_url: String,
    /// Where the channel's artifacts are published.
    pub artifact_base_url: String,
}

impl Clone for ChannelConfig {
    fn clone(&self) -> (r: Self)
        ensures
            r == *self,
    {
        ChannelConfig {
            metadata_base_url: self.metadata_base_url.clone(),
            artifact_base_url: self.artifact_base_url.clone(),
        }
    }
}

/// A length of time.
#[derive(Clone, Copy, Debug, PartialEq, Eq, Structural)]
pub struct Interval {
    /// Whole seconds.
    pub secs: u64,
    /// What comes on top of them, below a second.
    pub nanos: u32,
}

impl Interval {
    /// A number of whole seconds.
    pub fn from_secs(secs: u64) -> (r: Self)
        ensures
            r == (Interval { secs, nanos: 0 }),
    {
        Interval { secs, nanos: 0 }
    }
}

/// Everything one catalog is configured with. `W` says how many workers
/// transfer, and where they run.
#[derive(Debug)]
pub struct CatalogConfig<W> {
    /// The directory the catalog owns: the updater's generations, the
    /// extracted payload trees, and the activation record all live beneath
    /// it.
    pub root: TreePath,
    /// The updater's evictable download cache.
    pub cache_dir: TreePath,
    /// The updater's trust state. Must survive upgrades and power loss, and
    /// must not sit inside any cache.
    pub trust_state_dir: TreePath,
    /// The update channel to follow.
    pub channel: ChannelConfig,
    /// The TUF root this binary trusts the channel against.
    pub embedded_root: Vec<u8>,
    /// The release target whose artifacts this host takes, such as
    /// `linux-x86_64`. [`CatalogConfig::native_target`] names the running
    /// platform's.
    pub target: String,
    /// The shortest time between two channel checks.
    pub check_interval: Interval,
    /// Whether a check that finds an update flows straight into a download.
    /// This is the download-consent knob; activation itself has no gate.
    pub auto_apply: bool,
    /// Transfer worker count and placement.
    pub workers: W,
}

impl<W: Clone> Clone for CatalogConfig<W> {
    fn clone(&self) -> (r: Self)
        ensures
            r.root@ == self.root@,
            r.cache_dir@ == self.cache_dir@,
            r.trust_state_dir@ == self.trust_state_dir@,
            r.channel == self.channel,
            r.embedded_root@ == self.embedded_root@,
            r.target == self.target,
            r.check_interval == self.check_interval,
            r.auto_apply == self.auto_apply,
            cloned(self.workers, r.workers),
    {
        let mut embedded_root: Vec<u8> = Vec::new();
        for i in 0..self.embedded_root.len()
            invariant
                embedded_root@ == self.embedded_root@.take(i as int),
        {
            embedded_root.push(self.embedded_root[i]);
        }
        CatalogConfig {
            root: self.root.clone(),
            cache_dir: self.cache_dir.clone(),
            trust_state_dir: self.trust_state_dir.clone(),
            channel: self.channel.clone(),
            embedded_root,
            target: self.target.clone(),
            check_interval: self.check_interval,
            auto_apply: self.auto_apply,
            workers: self.workers.clone(),
        }
    }
}

/// Everything the catalog's updater is configured with.
#[derive(Debug)]
pub struct UpdaterConfig<W> {
    pub install_root: TreePath,
    pub cache_dir: TreePath,
    pub trust_state_dir: TreePath,
    pub channel: ChannelConfig,
    pub embedded_root: Vec<u8>,
    pub target: Option<String>,
    pub check_interval: Interval,
    pub auto_apply: bool,
    pub workers: W,
}

/// The release target that a platform consumes, when it is one the pipeline
/// publishes.
pub open spec fn target_of(os: Seq<char>, arch: Seq<char>) -> Option<Seq<char>> {
    if os == "linux"@ && arch == "x86_64"@ {
        Some("linux-x86_64"@)
    } else if os == "linux"@ && arch == "aarch64"@ {
        Some("linux-arm64"@)
    } else if os == "windows"@ && arch == "x86_64"@ {
        Some("windows-x86_64"@)
    } else {
        None
    }
}

impl<W> CatalogConfig<W> {
    /// A config keeping cache and trust state beneath `root`, checking
    /// hourly, downloading automatically.
    #[must_use]
    pub fn beneath(
        root: TreePath,
        channel: ChannelConfig,
        embedded_root: Vec<u8>,
        target: String,
        workers: W,
    ) -> (r: Self)
        ensures
            r.root == root,
            r.cache_dir@ == root@.join("cache"@),
            r.trust_state_dir@ == root@.join("trust-state"@),
            r.channel == channel,
            r.embedded_root == embedded_root,
            r.target == target,
            r.check_interval == (Interval { secs: 3600, nanos: 0 }),
            r.auto_apply,
            r.workers == workers,
    {
        CatalogConfig {
            cache_dir: root.join("cache"),
            trust_state_dir: root.join("trust-state"),
            root,
            channel,
            embedded_root,
            target,
            check_interval: Interval::from_secs(60 * 60),
            auto_apply: true,
            workers,
        }
    }

    /// The release target the platform `os` on `arch` consumes, when it is
    /// one the pipeline publishes.
    #[must_use]
    pub fn native_target(os: &str, arch: &str) -> (r: Option<&'static str>)
        ensures
            (match r {
                Some(target) => Some(target@),
                None => None,
            }) == target_of(os@, arch@),
    {
        if same(os, "linux") && same(arch, "x86_64") {
            Some("linux-x86_64")
        } else if same(os, "linux") && same(arch, "aarch64") {
            Some("linux-arm64")
        } else if same(os, "windows") && same(arch, "x86_64") {
            Some("windows-x86_64")
        } else {
            None
        }
    }

    /// Where the activation record is stored.
    pub fn record_place(&self) -> (r: TreePath)
        ensures
            r@ == self.root@.join("activation.json"@),
    {
        self.root.join("activation.json")
    }

    /// Where the payload trees sit.
    pub fn payload_place(&self) -> (r: TreePath)
        ensures
            r@ == self.root@.join("payloads"@),
    {
        self.root.join("payloads")
    }

    /// What the updater of this catalog is configured with.
    pub open spec fn for_updater(self) -> UpdaterConfig<W> {
        UpdaterConfig {
            install_root: self.root,
            cache_dir: self.cache_dir,
            trust_state_dir: self.trust_state_dir,
            channel: self.channel,
            embedded_root: self.embedded_root,
            target: Some(self.target),
            check_interval: self.check_interval,
            auto_apply: self.auto_apply,
            workers: self.workers,
        }
    }

    /// What the updater of this catalog is configured with.
    pub fn updater(self) -> (r: UpdaterConfig<W>)
        ensures
            r == self.for_updater(),
    {
        UpdaterConfig {
            install_root: self.root,
            cache_dir: self.cache_dir,
            trust_state_dir: self.trust_state_dir,
            channel: self.channel,
            embedded_root: self.embedded_root,
            target: Some(self.target),
            check_interval: self.check_interval,
            auto_apply: self.auto_apply,
            workers: self.workers,
        }
    }
}

} // verus!

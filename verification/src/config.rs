//! Configuration of LingBench, as `lingbench.toml` describes it.
use vstd::prelude::*;
use crate::paths::{is_absolute, join_path, parent, parent_of, path_is_absolute, path_join};

verus! {

/// The benchmark configuration.
#[derive(Debug)]
pub struct Config {
    pub workdir: String,
    pub kernel: KernelConfig,
    pub rootfs: RootfsConfig,
    /// Root directory for VMM binaries. Relative to lingbench.toml location.
    pub vmm_dir: String,
    /// Per-VMM configuration.
    pub vmm_configs: Vec<VmmConfig>,
    pub logs: LogConfig,
    pub report: ReportConfig,
    /// The work directory, kernel and root file system that VMs run with.
    pub global: GlobalConfig,
}

pub fn default_workdir() -> (r: String)
    ensures
        r@ == "build"@,
{
    "build".to_owned()
}

pub fn default_vmm_dir() -> (r: String)
    ensures
        r@ == "./vmm"@,
{
    "./vmm".to_owned()
}

/// The guest kernel to build.
#[derive(Debug)]
pub struct KernelConfig {
    pub version: String,
    pub source_url: Option<String>,
    pub sha256: Option<String>,
    pub config_fragment: Option<String>,
    pub arch: String,
    pub extra_make_args: Vec<String>,
}

/// The guest root file system to build.
#[derive(Debug)]
pub struct RootfsConfig {
    pub containerfile: String,
    pub size_mib: u64,
    pub builder: String,
    pub formats: Vec<RootfsFormat>,
}

#[derive(Debug, Clone, Copy, PartialEq, Eq, Structural)]
pub enum RootfsFormat {
    Tar,
    Ext4,
    Cpio,
}

pub fn default_arch() -> (r: String)
    ensures
        r@ == "x86_64"@,
{
    "x86_64".to_owned()
}

pub fn default_containerfile() -> (r: String)
    ensures
        r@ == "guest/rootfs/Containerfile"@,
{
    "guest/rootfs/Containerfile".to_owned()
}

pub fn default_size_mib() -> (r: u64)
    ensures
        r == 512,
{
    512
}

pub fn default_builder() -> (r: String)
    ensures
        r@ == "podman"@,
{
    "podman".to_owned()
}

/// VMM-specific configuration.
#[derive(Debug)]
pub struct VmmConfig {
    pub name: String,
    pub binary: String,
    pub enabled: bool,
}

pub struct VmmConfigView {
    pub name: Seq<char>,
    pub binary: Seq<char>,
    pub enabled: bool,
}

impl View for VmmConfig {
    type V = VmmConfigView;

    open spec fn view(&self) -> VmmConfigView {
        VmmConfigView { name: self.name@, binary: self.binary@, enabled: self.enabled }
    }
}

/// The views of a sequence of VMM configurations.
pub open spec fn vmm_views(v: Seq<VmmConfig>) -> Seq<VmmConfigView> {
    v.map_values(|c: VmmConfig| c@)
}

impl VmmConfig {
    /// Resolve binary path relative to vmm_dir.
    pub fn resolved_binary(&self, vmm_dir: &str) -> (r: String)
        ensures
            r@ == (if is_absolute(self.binary@) {
                self.binary@
            } else {
                path_join(vmm_dir@, self.binary@)
            }),
    {
        if path_is_absolute(self.binary.as_str()) {
            self.binary.clone()
        } else {
            join_path(vmm_dir, self.binary.as_str())
        }
    }
}

/// Logging configuration.
#[derive(Debug)]
pub struct LogConfig {
    pub level: String,
    pub enabled: bool,
    pub dir: String,
}

pub fn default_log_level() -> (r: String)
    ensures
        r@ == "basic"@,
{
    "basic".to_owned()
}

pub fn default_true() -> (r: bool)
    ensures
        r,
{
    true
}

pub fn default_log_dir() -> (r: String)
    ensures
        r@ == "./logs"@,
{
    "./logs".to_owned()
}

/// Report configuration.
#[derive(Debug)]
pub struct ReportConfig {
    pub enabled: bool,
    pub output_dir: String,
}

pub fn default_report_dir() -> (r: String)
    ensures
        r@ == "./results"@,
{
    "./results".to_owned()
}

impl Default for LogConfig {
    fn default() -> (r: Self)
        ensures
            r.level@ == "basic"@,
            r.enabled,
            r.dir@ == "./logs"@,
    {
        Self { level: default_log_level(), enabled: default_true(), dir: default_log_dir() }
    }
}

impl Default for ReportConfig {
    fn default() -> (r: Self)
        ensures
            r.enabled,
            r.output_dir@ == "./results"@,
    {
        Self { enabled: default_true(), output_dir: default_report_dir() }
    }
}

/// Where VMs find their kernel and root file system.
#[derive(Debug)]
pub struct GlobalConfig {
    /// Relative to the directory of lingbench.toml.
    pub workdir: String,
    /// Relative to `workdir` unless absolute.
    pub kernel: String,
    /// Relative to `workdir` unless absolute.
    pub rootfs: String,
}

impl Default for GlobalConfig {
    fn default() -> (r: Self)
        ensures
            r.workdir@ == "build"@,
            r.kernel@ == "bzImage"@,
            r.rootfs@ == "rootfs.ext4"@,
    {
        Self { workdir: default_workdir(), kernel: "bzImage".to_owned(), rootfs: "rootfs.ext4".to_owned() }
    }
}

/// The directory of a configuration file: its parent, or `.` when it has none.
pub open spec fn config_base(path: Seq<char>) -> Seq<char> {
    match parent_of(path) {
        Some(p) => p,
        None => "."@,
    }
}

impl Config {
    /// The configuration read from the file at `path`, with its log and report
    /// directories taken relative to the file's directory (what loading does after parsing).
    pub fn with_resolved_dirs(self, path: &str) -> (r: Self)
        ensures
            r.logs.dir@ == path_join(config_base(path@), self.logs.dir@),
            r.report.output_dir@ == path_join(config_base(path@), self.report.output_dir@),
            r.logs.level == self.logs.level,
            r.logs.enabled == self.logs.enabled,
            r.report.enabled == self.report.enabled,
            r.workdir == self.workdir,
            r.vmm_dir == self.vmm_dir,
            r.vmm_configs == self.vmm_configs,
            r.kernel == self.kernel,
            r.rootfs == self.rootfs,
            r.global == self.global,
    {
        let base = match parent(path) {
            Some(p) => p,
            None => ".".to_owned(),
        };
        let mut config = self;
        config.logs.dir = join_path(base.as_str(), config.logs.dir.as_str());
        config.report.output_dir = join_path(base.as_str(), config.report.output_dir.as_str());
        config
    }

    pub fn kernel_dir(&self) -> (r: String)
        ensures
            r@ == path_join(self.workdir@, "kernel"@),
    {
        join_path(self.workdir.as_str(), "kernel")
    }

    pub fn rootfs_dir(&self) -> (r: String)
        ensures
            r@ == path_join(self.workdir@, "rootfs"@),
    {
        join_path(self.workdir.as_str(), "rootfs")
    }

    pub fn download_dir(&self) -> (r: String)
        ensures
            r@ == path_join(self.workdir@, "downloads"@),
    {
        join_path(self.workdir.as_str(), "downloads")
    }

    /// Returns the list of VMM configs that are enabled, in configuration order.
    pub fn get_enabled_vmm(&self) -> (r: Vec<&VmmConfig>)
        ensures
            r@.map_values(|c: &VmmConfig| c@) == enabled_vmms(vmm_views(self.vmm_configs@)),
    {
        let mut r: Vec<&VmmConfig> = Vec::new();
        let n = self.vmm_configs.len();
        let ghost all = vmm_views(self.vmm_configs@);
        let mut i: usize = 0;
        while i < n
            invariant
                n == self.vmm_configs.len(),
                all == vmm_views(self.vmm_configs@),
                i <= n,
                r@.map_values(|c: &VmmConfig| c@) == enabled_vmms(all.take(i as int)),
            decreases n - i,
        {
            let c = &self.vmm_configs[i];
            assert(all.take(i + 1).drop_last() =~= all.take(i as int));
            assert(all.take(i + 1).last() == c@);
            if c.enabled {
                r.push(c);
            }
            assert(r@.map_values(|c: &VmmConfig| c@) =~= enabled_vmms(all.take(i + 1)));
            i = i + 1;
        }
        assert(all.take(n as int) =~= all);
        r
    }
}

/// The enabled configurations among `v`, in order.
pub open spec fn enabled_vmms(v: Seq<VmmConfigView>) -> Seq<VmmConfigView>
    decreases v.len(),
{
    if v.len() == 0 {
        Seq::empty()
    } else if v.last().enabled {
        enabled_vmms(v.drop_last()).push(v.last())
    } else {
        enabled_vmms(v.drop_last())
    }
}

} // verus!

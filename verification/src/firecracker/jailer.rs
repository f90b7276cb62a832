//! Jail configuration: a builder-constructed, immutable description of how
//! the jail-enforcing binary is invoked, and the derived chroot path
//! `<chroot_base>/<basename(firecracker_binary)>/<id>/root`.

use crate::text::spec_dec_u64;
use vstd::prelude::*;
use vstd::string::*;

verus! {

/// Everything after the last `/` of a path; empty when the path is empty
/// or ends with a `/`.
pub open spec fn spec_basename(s: Seq<char>) -> Seq<char>
    decreases s.len(),
{
    if s.len() == 0 {
        s
    } else if s.last() == '/' {
        Seq::empty()
    } else {
        spec_basename(s.drop_last()).push(s.last())
    }
}

/// The directory that the jailer will chroot into before running the
/// hypervisor: `<chroot_base>/<basename(binary)>/<id>/root`.
pub open spec fn spec_chroot_path(base: Seq<char>, binary: Seq<char>, id: Seq<char>) -> Seq<char> {
    base + "/"@ + spec_basename(binary) + "/"@ + id + "/root"@
}

/// A hypervisor binary path is usable when it names a file: its basename
/// is nonempty and is not a dot component.
pub open spec fn basename_ok(p: Seq<char>) -> bool {
    &&& spec_basename(p).len() > 0
    &&& spec_basename(p) != "."@
    &&& spec_basename(p) != ".."@
}

/// The chroot base must name a directory plainly: nonempty, no trailing
/// separator (so the derived chroot path is an unambiguous function of
/// its parts).
pub open spec fn chroot_base_ok(p: Seq<char>) -> bool {
    p.len() > 0 && p.last() != '/'
}

/// A jail ID is joined under the chroot base; it must be nonempty and
/// relative.
pub open spec fn id_ok(p: Seq<char>) -> bool {
    p.len() > 0 && p[0] != '/'
}

/// cgroup settings are a mapping: no key appears twice.
pub open spec fn cgroup_keys_unique(s: Seq<(String, String)>) -> bool {
    forall|i: int, j: int| 0 <= i < j < s.len() ==> s[i].0@ != s[j].0@
}

/// Firecracker jail configuration. Built once per microVM instance via
/// [`ConfigBuilder`] and then only borrowed.
#[derive(Clone, Debug)]
pub struct Config {
    /// Path to the `jailer` executable
    pub jailer_binary: String,
    /// Path to the `firecracker` executable
    pub firecracker_binary: String,
    /// Unique microVM jail ID
    pub id: String,
    /// User to switch to when running Firecracker
    pub user: u32,
    /// Group to switch to when running Firecracker
    pub group: u32,
    /// Base directory to create chroot jails under.
    pub chroot_base: String,
    /// Network namespace to join before running Firecracker
    pub network_namespace: Option<String>,
    /// cgroup settings to apply to the Firecracker process. Keys are
    /// cgroup file names (like `cpuset.cpus`) and values are the file
    /// contents (such as `0` to bind to CPU 0).
    pub cgroup: Vec<(String, String)>,
    /// Command-line arguments for Firecracker. Note that the jailer
    /// passes some additional arguments such as `--id`.
    pub firecracker_args: Vec<String>,
}

impl Config {
    /// A configuration is well formed when its path pieces keep the
    /// chroot path unambiguous and its cgroup settings are a mapping.
    pub open spec fn wf(self) -> bool {
        &&& basename_ok(self.firecracker_binary@)
        &&& chroot_base_ok(self.chroot_base@)
        &&& id_ok(self.id@)
        &&& cgroup_keys_unique(self.cgroup@)
    }

    /// Directory that the jailer will chroot into before running
    /// Firecracker.
    ///
    /// This takes the form `$chroot_base/$(basename $firecracker_binary)/$id/root`.
    pub fn chroot_path(&self) -> (r: String)
        requires
            basename_ok(self.firecracker_binary@),
        ensures
            r@ == spec_chroot_path(self.chroot_base@, self.firecracker_binary@, self.id@),
    {
        let mut p = self.chroot_base.clone();
        p.append("/");
        let b = basename(self.firecracker_binary.as_str());
        p.append(b.as_str());
        p.append("/");
        p.append(self.id.as_str());
        p.append("/root");
        proof {
            assert(p@ =~= spec_chroot_path(self.chroot_base@, self.firecracker_binary@, self.id@));
        }
        p
    }
}

/// The string carried by `o`, or the default `d`.
pub open spec fn spec_or_default(o: Option<String>, d: Seq<char>) -> Seq<char> {
    match o {
        Some(s) => s@,
        None => d,
    }
}

/// Why [`ConfigBuilder::build`] refused to produce a configuration.
#[derive(Copy, Clone, Debug, PartialEq, Eq)]
pub enum BuildError {
    /// No jail ID was supplied.
    UninitializedId,
    /// No user ID was supplied.
    UninitializedUser,
    /// No group ID was supplied.
    UninitializedGroup,
    /// The hypervisor binary path has no usable basename.
    InvalidFirecrackerBinary,
    /// The chroot base is empty or ends with a separator.
    InvalidChrootBase,
    /// The jail ID is empty or absolute.
    InvalidId,
    /// Two cgroup settings share a key.
    DuplicateCgroupKey,
}

/// Builder for [`Config`]: the jail ID, user and group are required, the
/// rest defaults. `build` validates what it assembles, so that every
/// configuration it hands out is well formed.
#[derive(Clone, Debug)]
pub struct ConfigBuilder {
    pub jailer_binary: Option<String>,
    pub firecracker_binary: Option<String>,
    pub id: Option<String>,
    pub user: Option<u32>,
    pub group: Option<u32>,
    pub chroot_base: Option<String>,
    pub network_namespace: Option<String>,
    pub cgroup: Option<Vec<(String, String)>>,
    pub firecracker_args: Option<Vec<String>>,
}

impl Default for ConfigBuilder {
    /// A builder with nothing set.
    fn default() -> (r: ConfigBuilder)
        ensures
            r.jailer_binary is None,
            r.firecracker_binary is None,
            r.id is None,
            r.user is None,
            r.group is None,
            r.chroot_base is None,
            r.network_namespace is None,
            r.cgroup is None,
            r.firecracker_args is None,
    {
        ConfigBuilder {
            jailer_binary: None,
            firecracker_binary: None,
            id: None,
            user: None,
            group: None,
            chroot_base: None,
            network_namespace: None,
            cgroup: None,
            firecracker_args: None,
        }
    }
}

impl ConfigBuilder {
    /// The effective jailer binary: the one set, or `/usr/bin/jailer`.
    pub open spec fn spec_jailer_binary(self) -> Seq<char> {
        spec_or_default(self.jailer_binary, "/usr/bin/jailer"@)
    }

    /// The effective hypervisor binary: the one set, or
    /// `/usr/bin/firecracker`.
    pub open spec fn spec_firecracker_binary(self) -> Seq<char> {
        spec_or_default(self.firecracker_binary, "/usr/bin/firecracker"@)
    }

    /// The effective chroot base: the one set, or `/srv/jailer`.
    pub open spec fn spec_chroot_base(self) -> Seq<char> {
        spec_or_default(self.chroot_base, "/srv/jailer"@)
    }

    /// The effective cgroup settings: the ones set, or none.
    pub open spec fn spec_cgroup(self) -> Seq<(String, String)> {
        match self.cgroup {
            Some(v) => v@,
            None => Seq::empty(),
        }
    }

    /// All three required fields were supplied.
    pub open spec fn spec_required_present(self) -> bool {
        self.id is Some && self.user is Some && self.group is Some
    }

    /// `build` succeeds exactly on builders whose required fields are
    /// present and whose effective values pass validation.
    pub open spec fn spec_buildable(self) -> bool {
        &&& self.spec_required_present()
        &&& basename_ok(self.spec_firecracker_binary())
        &&& chroot_base_ok(self.spec_chroot_base())
        &&& id_ok(self.id.unwrap()@)
        &&& cgroup_keys_unique(self.spec_cgroup())
    }

    pub fn jailer_binary(self, v: &str) -> (r: Self)
        ensures
            r == (ConfigBuilder { jailer_binary: r.jailer_binary, ..self }),
            r.jailer_binary matches Some(s) && s@ == v@,
    {
        ConfigBuilder { jailer_binary: Some(v.to_owned()), ..self }
    }

    pub fn firecracker_binary(self, v: &str) -> (r: Self)
        ensures
            r == (ConfigBuilder { firecracker_binary: r.firecracker_binary, ..self }),
            r.firecracker_binary matches Some(s) && s@ == v@,
    {
        ConfigBuilder { firecracker_binary: Some(v.to_owned()), ..self }
    }

    pub fn id(self, v: &str) -> (r: Self)
        ensures
            r == (ConfigBuilder { id: r.id, ..self }),
            r.id matches Some(s) && s@ == v@,
    {
        ConfigBuilder { id: Some(v.to_owned()), ..self }
    }

    pub fn user(self, v: u32) -> (r: Self)
        ensures
            r == (ConfigBuilder { user: Some(v), ..self }),
    {
        ConfigBuilder { user: Some(v), ..self }
    }

    pub fn group(self, v: u32) -> (r: Self)
        ensures
            r == (ConfigBuilder { group: Some(v), ..self }),
    {
        ConfigBuilder { group: Some(v), ..self }
    }

    pub fn chroot_base(self, v: &str) -> (r: Self)
        ensures
            r == (ConfigBuilder { chroot_base: r.chroot_base, ..self }),
            r.chroot_base matches Some(s) && s@ == v@,
    {
        ConfigBuilder { chroot_base: Some(v.to_owned()), ..self }
    }

    pub fn network_namespace(self, v: &str) -> (r: Self)
        ensures
            r == (ConfigBuilder { network_namespace: r.network_namespace, ..self }),
            r.network_namespace matches Some(s) && s@ == v@,
    {
        ConfigBuilder { network_namespace: Some(v.to_owned()), ..self }
    }

    pub fn cgroup(self, v: Vec<(String, String)>) -> (r: Self)
        ensures
            r == (ConfigBuilder { cgroup: Some(v), ..self }),
    {
        ConfigBuilder { cgroup: Some(v), ..self }
    }

    pub fn firecracker_args(self, v: Vec<String>) -> (r: Self)
        ensures
            r == (ConfigBuilder { firecracker_args: Some(v), ..self }),
    {
        ConfigBuilder { firecracker_args: Some(v), ..self }
    }

    /// Assembles and validates the configuration. Missing required
    /// fields are reported first (ID, then user, then group), then the
    /// effective values are validated in field order.
    pub fn build(self) -> (r: Result<Config, BuildError>)
        ensures
            r matches Err(BuildError::UninitializedId) <==> self.id is None,
            r matches Err(BuildError::UninitializedUser) <==> self.id is Some && self.user is None,
            r matches Err(BuildError::UninitializedGroup) <==> self.id is Some && self.user is Some
                && self.group is None,
            r matches Err(BuildError::InvalidFirecrackerBinary) <==> self.spec_required_present()
                && !basename_ok(self.spec_firecracker_binary()),
            r matches Err(BuildError::InvalidChrootBase) <==> self.spec_required_present()
                && basename_ok(self.spec_firecracker_binary()) && !chroot_base_ok(
                self.spec_chroot_base(),
            ),
            r matches Err(BuildError::InvalidId) <==> self.spec_required_present() && basename_ok(
                self.spec_firecracker_binary(),
            ) && chroot_base_ok(self.spec_chroot_base()) && !id_ok(self.id.unwrap()@),
            r matches Err(BuildError::DuplicateCgroupKey) <==> self.spec_required_present()
                && basename_ok(self.spec_firecracker_binary()) && chroot_base_ok(
                self.spec_chroot_base(),
            ) && id_ok(self.id.unwrap()@) && !cgroup_keys_unique(self.spec_cgroup()),
            r is Ok <==> self.spec_buildable(),
            r matches Ok(c) ==> {
                &&& c.wf()
                &&& c.jailer_binary@ == self.spec_jailer_binary()
                &&& c.firecracker_binary@ == self.spec_firecracker_binary()
                &&& c.id == self.id.unwrap()
                &&& c.user == self.user.unwrap()
                &&& c.group == self.group.unwrap()
                &&& c.chroot_base@ == self.spec_chroot_base()
                &&& c.network_namespace == self.network_namespace
                &&& c.cgroup@ == self.spec_cgroup()
                &&& (self.firecracker_args matches Some(a) ==> c.firecracker_args == a)
                &&& (self.firecracker_args is None ==> c.firecracker_args@ == Seq::<
                    String,
                >::empty())
            },
    {
        let ConfigBuilder {
            jailer_binary,
            firecracker_binary,
            id,
            user,
            group,
            chroot_base,
            network_namespace,
            cgroup,
            firecracker_args,
        } = self;
        let id = match id {
            Some(v) => v,
            None => { return Err(BuildError::UninitializedId) },
        };
        let user = match user {
            Some(v) => v,
            None => { return Err(BuildError::UninitializedUser) },
        };
        let group = match group {
            Some(v) => v,
            None => { return Err(BuildError::UninitializedGroup) },
        };
        let jailer_binary = match jailer_binary {
            Some(v) => v,
            None => "/usr/bin/jailer".to_owned(),
        };
        let firecracker_binary = match firecracker_binary {
            Some(v) => v,
            None => "/usr/bin/firecracker".to_owned(),
        };
        let chroot_base = match chroot_base {
            Some(v) => v,
            None => "/srv/jailer".to_owned(),
        };
        let cgroup = match cgroup {
            Some(v) => v,
            None => Vec::new(),
        };
        let firecracker_args = match firecracker_args {
            Some(v) => v,
            None => Vec::new(),
        };
        if !check_basename_ok(firecracker_binary.as_str()) {
            return Err(BuildError::InvalidFirecrackerBinary);
        }
        let base_len = chroot_base.as_str().unicode_len();
        if base_len == 0 || chroot_base.as_str().get_char(base_len - 1) == '/' {
            return Err(BuildError::InvalidChrootBase);
        }
        let id_len = id.as_str().unicode_len();
        if id_len == 0 || id.as_str().get_char(0) == '/' {
            return Err(BuildError::InvalidId);
        }
        if !cgroup_unique(&cgroup) {
            return Err(BuildError::DuplicateCgroupKey);
        }
        Ok(
            Config {
                jailer_binary,
                firecracker_binary,
                id,
                user,
                group,
                chroot_base,
                network_namespace,
                cgroup,
                firecracker_args,
            },
        )
    }
}

/// Whether a path's basename is usable, as executable code.
fn check_basename_ok(s: &str) -> (r: bool)
    ensures
        r == basename_ok(s@),
{
    proof {
        reveal_strlit(".");
        reveal_strlit("..");
    }
    let b = basename(s);
    let n = b.as_str().unicode_len();
    if n == 0 {
        return false;
    }
    if n == 1 && b.as_str().get_char(0) == '.' {
        proof {
            assert(b@ =~= "."@);
        }
        return false;
    }
    if n == 2 && b.as_str().get_char(0) == '.' && b.as_str().get_char(1) == '.' {
        proof {
            assert(b@ =~= ".."@);
        }
        return false;
    }
    proof {
        assert(b@ != "."@ && b@ != ".."@) by {
            if b@ == "."@ {
                assert(b@.len() == 1 && b@[0] == '.');
            }
            if b@ == ".."@ {
                assert(b@.len() == 2 && b@[0] == '.' && b@[1] == '.');
            }
        }
    }
    true
}

/// Whether no cgroup key repeats, as executable code.
fn cgroup_unique(v: &Vec<(String, String)>) -> (r: bool)
    ensures
        r == cgroup_keys_unique(v@),
{
    let n = v.len();
    let mut i: usize = 0;
    while i < n
        invariant
            i <= n,
            n == v@.len(),
            forall|a: int, b: int| 0 <= a < b < v@.len() && a < i ==> v@[a].0@ != v@[b].0@,
        decreases n - i,
    {
        let mut j: usize = i + 1;
        while j < n
            invariant
                i < j <= n,
                i < n,
                n == v@.len(),
                forall|a: int, b: int| 0 <= a < b < v@.len() && a < i ==> v@[a].0@ != v@[b].0@,
                forall|b: int| i < b < j ==> v@[i as int].0@ != v@[b].0@,
            decreases n - j,
        {
            if v[i].0 == v[j].0 {
                proof {
                    assert(!cgroup_keys_unique(v@)) by {
                        assert(0 <= i < j < v@.len() && v@[i as int].0@ == v@[j as int].0@);
                    }
                }
                return false;
            }
            j = j + 1;
        }
        i = i + 1;
    }
    true
}

/// The command line that launches the jailer: the program, its argument
/// list, and the demand that the child enter a new PID namespace before
/// it execs.
#[derive(Clone, Debug)]
pub struct CommandLine {
    pub program: String,
    pub args: Vec<String>,
    /// The child process is placed in a new PID namespace before the
    /// jail binary runs.
    pub new_pid_namespace: bool,
}

/// One `--cgroup key=value` pair per configured cgroup entry, in order.
pub open spec fn spec_cgroup_args(s: Seq<(String, String)>) -> Seq<Seq<char>>
    decreases s.len(),
{
    if s.len() == 0 {
        Seq::empty()
    } else {
        spec_cgroup_args(s.drop_last()) + seq![
            "--cgroup"@,
            s.last().0@ + "="@ + s.last().1@,
        ]
    }
}

/// The full jailer argument list: identity and isolation flags, cgroup
/// settings, the optional namespace to join, and — after a `--`
/// separator — the arguments forwarded to the hypervisor verbatim.
pub open spec fn spec_command_args(c: Config) -> Seq<Seq<char>> {
    seq![
        "--id"@,
        c.id@,
        "--exec-file"@,
        c.firecracker_binary@,
        "--uid"@,
        spec_dec_u64(c.user as nat),
        "--gid"@,
        spec_dec_u64(c.group as nat),
        "--chroot-base-dir"@,
        c.chroot_base@,
    ] + spec_cgroup_args(c.cgroup@) + (match c.network_namespace {
        Some(p) => seq!["--netns"@, p@],
        None => Seq::empty(),
    }) + (if c.firecracker_args@.len() > 0 {
        seq!["--"@] + c.firecracker_args.deep_view()
    } else {
        Seq::empty()
    })
}

/// Builds the jailer invocation for `config`.
pub fn build_command(config: &Config) -> (r: CommandLine)
    ensures
        r.program@ == config.jailer_binary@,
        r.args.deep_view() == spec_command_args(*config),
        r.new_pid_namespace,
{
    let mut args: Vec<String> = Vec::new();
    args.push("--id".to_owned());
    args.push(config.id.clone());
    args.push("--exec-file".to_owned());
    args.push(config.firecracker_binary.clone());
    args.push("--uid".to_owned());
    args.push(crate::text::dec_u64(config.user as u64));
    args.push("--gid".to_owned());
    args.push(crate::text::dec_u64(config.group as u64));
    args.push("--chroot-base-dir".to_owned());
    args.push(config.chroot_base.clone());
    let ghost fixed = args.deep_view();
    proof {
        assert(fixed =~= seq![
            "--id"@,
            config.id@,
            "--exec-file"@,
            config.firecracker_binary@,
            "--uid"@,
            spec_dec_u64(config.user as nat),
            "--gid"@,
            spec_dec_u64(config.group as nat),
            "--chroot-base-dir"@,
            config.chroot_base@,
        ]);
    }
    proof {
        assert(fixed + spec_cgroup_args(config.cgroup@.take(0int)) =~= fixed);
    }
    let mut k: usize = 0;
    while k < config.cgroup.len()
        invariant
            k <= config.cgroup@.len(),
            args.deep_view() == fixed + spec_cgroup_args(config.cgroup@.take(k as int)),
        decreases config.cgroup@.len() - k,
    {
        let ghost pre = args.deep_view();
        let mut setting = config.cgroup[k].0.clone();
        setting.append("=");
        setting.append(config.cgroup[k].1.as_str());
        let ghost setting_view = setting@;
        args.push("--cgroup".to_owned());
        args.push(setting);
        proof {
            let taken = config.cgroup@.take(k + 1int);
            assert(taken.drop_last() =~= config.cgroup@.take(k as int));
            assert(taken.last() == config.cgroup@[k as int]);
            assert(args.deep_view() =~= pre.push("--cgroup"@).push(setting_view));
            assert(args.deep_view() =~= fixed + spec_cgroup_args(taken));
        }
        k = k + 1;
    }
    proof {
        assert(config.cgroup@.take(config.cgroup@.len() as int) =~= config.cgroup@);
    }
    match &config.network_namespace {
        Some(p) => {
            args.push("--netns".to_owned());
            args.push(p.clone());
        },
        None => {},
    }
    let ghost with_netns = args.deep_view();
    proof {
        assert(with_netns =~~= fixed + spec_cgroup_args(config.cgroup@) + (
        match config.network_namespace {
            Some(p) => seq!["--netns"@, p@],
            None => Seq::<Seq<char>>::empty(),
        }));
    }
    if config.firecracker_args.len() > 0 {
        let ghost before_sep = args.deep_view();
        args.push("--".to_owned());
        proof {
            assert(args.deep_view() =~= before_sep.push("--"@));
            assert(args.deep_view() =~= with_netns + seq!["--"@]
                + config.firecracker_args.deep_view().take(0int));
        }
        let mut k: usize = 0;
        while k < config.firecracker_args.len()
            invariant
                k <= config.firecracker_args@.len(),
                args.deep_view() == with_netns + seq!["--"@]
                    + config.firecracker_args.deep_view().take(k as int),
            decreases config.firecracker_args@.len() - k,
        {
            let ghost pre = args.deep_view();
            args.push(config.firecracker_args[k].clone());
            proof {
                assert(args.deep_view() =~= pre.push(config.firecracker_args@[k as int]@));
                assert(args.deep_view() =~= with_netns + seq!["--"@]
                    + config.firecracker_args.deep_view().take(k + 1int));
            }
            k = k + 1;
        }
        proof {
            assert(config.firecracker_args.deep_view().take(
                config.firecracker_args@.len() as int,
            ) =~= config.firecracker_args.deep_view());
        }
    }
    proof {
        assert(args.deep_view() =~~= spec_command_args(*config));
    }
    CommandLine { program: config.jailer_binary.clone(), args, new_pid_namespace: true }
}

/// Everything after the last `/`, as executable code.
fn basename(s: &str) -> (r: String)
    ensures
        r@ == spec_basename(s@),
{
    let n = s.unicode_len();
    let mut j = n;
    while j > 0 && s.get_char(j - 1) != '/'
        invariant
            j <= n,
            n == s@.len(),
            forall|k: int| j <= k < n ==> s@[k] != '/',
        decreases j,
    {
        j = j - 1;
    }
    proof {
        lemma_basename_is_tail(s@, j as int);
    }
    let sub = s.substring_char(j, n);
    sub.to_owned()
}

/// After a backward scan for `/` stops at `j`, the tail from `j` is the
/// basename.
pub proof fn lemma_basename_is_tail(s: Seq<char>, j: int)
    requires
        0 <= j <= s.len(),
        forall|k: int| j <= k < s.len() ==> s[k] != '/',
        j > 0 ==> s[j - 1] == '/',
    ensures
        spec_basename(s) == s.subrange(j, s.len() as int),
    decreases s.len(),
{
    if s.len() == 0 {
        assert(spec_basename(s) =~= s.subrange(j, s.len() as int));
    } else if s.last() == '/' {
        assert(j == s.len());
        assert(spec_basename(s) =~= s.subrange(j, s.len() as int));
    } else {
        assert(j < s.len());
        let t = s.drop_last();
        lemma_basename_is_tail(t, j);
        assert(spec_basename(t).push(s.last()) =~= s.subrange(j, s.len() as int));
    }
}

/// Two configurations that agree on the chroot base, the binary's
/// basename and the jail ID have the same chroot path; the user, group,
/// cgroup settings and remaining fields play no part in it.
pub proof fn lemma_chroot_path_pure(c1: Config, c2: Config)
    requires
        c1.chroot_base@ == c2.chroot_base@,
        spec_basename(c1.firecracker_binary@) == spec_basename(c2.firecracker_binary@),
        c1.id@ == c2.id@,
    ensures
        spec_chroot_path(c1.chroot_base@, c1.firecracker_binary@, c1.id@) == spec_chroot_path(
            c2.chroot_base@,
            c2.firecracker_binary@,
            c2.id@,
        ),
{
}

/// Conversely, the chroot path determines each of its three inputs once
/// the other two are fixed: changing exactly one of the chroot base, the
/// binary basename or the jail ID changes the path.
pub proof fn lemma_chroot_path_injective(
    b1: Seq<char>,
    f1: Seq<char>,
    i1: Seq<char>,
    b2: Seq<char>,
    f2: Seq<char>,
    i2: Seq<char>,
)
    requires
        spec_chroot_path(b1, f1, i1) == spec_chroot_path(b2, f2, i2),
    ensures
        spec_basename(f1) == spec_basename(f2) && i1 == i2 ==> b1 == b2,
        b1 == b2 && i1 == i2 ==> spec_basename(f1) == spec_basename(f2),
        b1 == b2 && spec_basename(f1) == spec_basename(f2) ==> i1 == i2,
{
    reveal_strlit("/");
    reveal_strlit("/root");
    let n1 = spec_basename(f1);
    let n2 = spec_basename(f2);
    let p1 = spec_chroot_path(b1, f1, i1);
    let p2 = spec_chroot_path(b2, f2, i2);
    assert(p1.len() == b1.len() + 1 + n1.len() + 1 + i1.len() + 5);
    assert(p2.len() == b2.len() + 1 + n2.len() + 1 + i2.len() + 5);
    if n1 == n2 && i1 == i2 {
        assert(b1.len() == b2.len());
        assert(b1 =~= p1.subrange(0, b1.len() as int));
        assert(b2 =~= p2.subrange(0, b2.len() as int));
    }
    if b1 == b2 && i1 == i2 {
        assert(n1.len() == n2.len());
        let off: int = b1.len() + 1int;
        let pre1 = b1 + "/"@ + n1;
        let pre2 = b2 + "/"@ + n2;
        assert(pre1 =~= p1.subrange(0, off + n1.len() as int));
        assert(pre2 =~= p2.subrange(0, off + n2.len() as int));
        assert(n1 =~= pre1.subrange(off, pre1.len() as int));
        assert(n2 =~= pre2.subrange(off, pre2.len() as int));
    }
    if b1 == b2 && n1 == n2 {
        assert(i1.len() == i2.len());
        let off: int = b1.len() + 1int + n1.len() + 1;
        let pre1 = b1 + "/"@ + n1 + "/"@ + i1;
        let pre2 = b2 + "/"@ + n2 + "/"@ + i2;
        assert(pre1 =~= p1.subrange(0, off + i1.len() as int));
        assert(pre2 =~= p2.subrange(0, off + i2.len() as int));
        assert(i1 =~= pre1.subrange(off, pre1.len() as int));
        assert(i2 =~= pre2.subrange(off, pre2.len() as int));
    }
}

} // verus!

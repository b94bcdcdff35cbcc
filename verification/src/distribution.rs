//! Host distribution facts and the package-manager command lines derived
//! from them.
//!
//! Detection (reading `/etc/os-release`, probing for tools) is host I/O and
//! lives with the application; it hands the findings in as plain values.
//! Everything derived from those findings — which package manager to use,
//! the install and update command lines, the LXC paths — is decided here.

use vstd::prelude::*;
use crate::text::{
    contains_seq, contains_str_ci, eq_ignore_case, has_prefix, lines_spec, lower_seq, split_lines,
    starts_with_str, trim_char_spec, trim_matching, views_of,
};

verus! {

#[derive(Debug, Clone, Copy, PartialEq, Eq, Structural)]
pub enum LinuxDistribution {
    Debian,
    Ubuntu,
    Fedora,
    RHEL,
    CentOS,
    Arch,
    OpenSUSE,
    Alpine,
    Unknown,
}

impl LinuxDistribution {
    /// Lower-case name of the distribution.
    pub fn name(&self) -> (r: &'static str)
        ensures
            r@ == match self {
                LinuxDistribution::Debian => "debian"@,
                LinuxDistribution::Ubuntu => "ubuntu"@,
                LinuxDistribution::Fedora => "fedora"@,
                LinuxDistribution::RHEL => "rhel"@,
                LinuxDistribution::CentOS => "centos"@,
                LinuxDistribution::Arch => "arch"@,
                LinuxDistribution::OpenSUSE => "opensuse"@,
                LinuxDistribution::Alpine => "alpine"@,
                LinuxDistribution::Unknown => "unknown"@,
            },
    {
        match self {
            LinuxDistribution::Debian => "debian",
            LinuxDistribution::Ubuntu => "ubuntu",
            LinuxDistribution::Fedora => "fedora",
            LinuxDistribution::RHEL => "rhel",
            LinuxDistribution::CentOS => "centos",
            LinuxDistribution::Arch => "arch",
            LinuxDistribution::OpenSUSE => "opensuse",
            LinuxDistribution::Alpine => "alpine",
            LinuxDistribution::Unknown => "unknown",
        }
    }
}

#[derive(Debug, Clone, Copy, PartialEq, Eq, Structural)]
pub enum PackageManager {
    Apt,
    Yum,
    Dnf,
    Pacman,
    Zypper,
    Apk,
}

#[derive(Debug, Clone)]
pub struct DistributionInfo {
    pub distro: LinuxDistribution,
    pub version: Option<String>,
    pub package_manager: PackageManager,
}

/// The package names joined with single spaces.
pub open spec fn join_spaces(v: Seq<Seq<char>>) -> Seq<char>
    decreases v.len(),
{
    if v.len() == 0 {
        Seq::empty()
    } else if v.len() == 1 {
        v[0]
    } else {
        v[0] + seq![' '] + join_spaces(v.drop_first())
    }
}

proof fn lemma_join_spaces_snoc(v: Seq<Seq<char>>, x: Seq<char>)
    requires
        v.len() >= 1,
    ensures
        join_spaces(v.push(x)) =~= join_spaces(v) + seq![' '] + x,
    decreases v.len(),
{
    if v.len() == 1 {
        let w = v.push(x);
        assert(w.len() == 2);
        assert(w.drop_first() =~= seq![x]);
        assert(join_spaces(seq![x]) == seq![x][0]);
        assert(join_spaces(w) == w[0] + seq![' '] + join_spaces(w.drop_first()));
    } else {
        assert(v.push(x).drop_first() =~= v.drop_first().push(x));
        lemma_join_spaces_snoc(v.drop_first(), x);
    }
}

/// Joins strings with single spaces.
pub fn join_with_spaces(parts: &Vec<String>) -> (r: String)
    ensures
        r@ == join_spaces(views_of(parts@)),
{
    let ghost vs = views_of(parts@);
    if parts.len() == 0 {
        return String::new();
    }
    let mut acc = String::from_str(parts[0].as_str());
    let mut i: usize = 1;
    while i < parts.len()
        invariant
            1 <= i <= parts.len(),
            vs == views_of(parts@),
            vs.len() == parts@.len(),
            acc@ == join_spaces(vs.subrange(0, i as int)),
        decreases parts.len() - i,
    {
        acc.append(" ");
        acc.append(parts[i].as_str());
        proof {
            reveal_strlit(" ");
            assert(" "@ =~= seq![' ']);
            assert(vs.subrange(0, i + 1) =~= vs.subrange(0, i as int).push(vs[i as int]));
            lemma_join_spaces_snoc(vs.subrange(0, i as int), vs[i as int]);
            assert(acc@ =~= join_spaces(vs.subrange(0, i + 1)));
        }
        i = i + 1;
    }
    proof {
        assert(vs.subrange(0, vs.len() as int) =~= vs);
    }
    acc
}

/// Chooses the package manager from the distribution and, where the
/// distribution alone does not settle it, from the tools actually present on
/// the host.
pub fn package_manager_for(
    distro: LinuxDistribution,
    has_apt: bool,
    has_dnf: bool,
    has_yum: bool,
    has_pacman: bool,
    has_zypper: bool,
    has_apk: bool,
) -> (pm: PackageManager)
    ensures
        pm == match distro {
            LinuxDistribution::Debian | LinuxDistribution::Ubuntu => PackageManager::Apt,
            LinuxDistribution::Fedora | LinuxDistribution::RHEL | LinuxDistribution::CentOS => if has_dnf {
                PackageManager::Dnf
            } else {
                PackageManager::Yum
            },
            LinuxDistribution::Arch => PackageManager::Pacman,
            LinuxDistribution::OpenSUSE => PackageManager::Zypper,
            LinuxDistribution::Alpine => PackageManager::Apk,
            LinuxDistribution::Unknown => if has_apt {
                PackageManager::Apt
            } else if has_dnf {
                PackageManager::Dnf
            } else if has_yum {
                PackageManager::Yum
            } else if has_pacman {
                PackageManager::Pacman
            } else if has_zypper {
                PackageManager::Zypper
            } else if has_apk {
                PackageManager::Apk
            } else {
                PackageManager::Apt
            },
        },
{
    match distro {
        LinuxDistribution::Debian | LinuxDistribution::Ubuntu => PackageManager::Apt,
        LinuxDistribution::Fedora | LinuxDistribution::RHEL | LinuxDistribution::CentOS => {
            if has_dnf {
                PackageManager::Dnf
            } else {
                PackageManager::Yum
            }
        },
        LinuxDistribution::Arch => PackageManager::Pacman,
        LinuxDistribution::OpenSUSE => PackageManager::Zypper,
        LinuxDistribution::Alpine => PackageManager::Apk,
        LinuxDistribution::Unknown => {
            if has_apt {
                PackageManager::Apt
            } else if has_dnf {
                PackageManager::Dnf
            } else if has_yum {
                PackageManager::Yum
            } else if has_pacman {
                PackageManager::Pacman
            } else if has_zypper {
                PackageManager::Zypper
            } else if has_apk {
                PackageManager::Apk
            } else {
                PackageManager::Apt
            }
        },
    }
}

/// The install-command prefix for a package manager, up to the package list.
pub open spec fn install_prefix(pm: PackageManager) -> Seq<char> {
    match pm {
        PackageManager::Apt => "apt-get install -y "@,
        PackageManager::Yum => "yum install -y "@,
        PackageManager::Dnf => "dnf install -y "@,
        PackageManager::Pacman => "pacman -S --noconfirm "@,
        PackageManager::Zypper => "zypper install -y "@,
        PackageManager::Apk => "apk add "@,
    }
}

impl DistributionInfo {
    /// The shell command that installs the given packages with this
    /// distribution's package manager.
    pub fn install_command(&self, packages: &Vec<String>) -> (r: String)
        ensures
            r@ == install_prefix(self.package_manager) + join_spaces(views_of(packages@)),
    {
        let joined = join_with_spaces(packages);
        let prefix = match self.package_manager {
            PackageManager::Apt => "apt-get install -y ",
            PackageManager::Yum => "yum install -y ",
            PackageManager::Dnf => "dnf install -y ",
            PackageManager::Pacman => "pacman -S --noconfirm ",
            PackageManager::Zypper => "zypper install -y ",
            PackageManager::Apk => "apk add ",
        };
        String::from_str(prefix).concat(joined.as_str())
    }

    /// The shell command that refreshes the package index.
    pub fn update_command(&self) -> (r: String)
        ensures
            r@ == match self.package_manager {
                PackageManager::Apt => "apt-get update"@,
                PackageManager::Yum => "yum check-update || true"@,
                PackageManager::Dnf => "dnf check-update || true"@,
                PackageManager::Pacman => "pacman -Sy"@,
                PackageManager::Zypper => "zypper refresh"@,
                PackageManager::Apk => "apk update"@,
            },
    {
        let s = match self.package_manager {
            PackageManager::Apt => "apt-get update",
            PackageManager::Yum => "yum check-update || true",
            PackageManager::Dnf => "dnf check-update || true",
            PackageManager::Pacman => "pacman -Sy",
            PackageManager::Zypper => "zypper refresh",
            PackageManager::Apk => "apk update",
        };
        String::from_str(s)
    }

    /// The distribution-specific name of a package.  Every package this
    /// system installs is named alike across the supported distributions, so
    /// the base name comes back unchanged.
    pub fn package_name(&self, base_package: &str) -> (r: String)
        ensures
            r@ == base_package@,
    {
        String::from_str(base_package)
    }

    /// Where the LXC default configuration lives: the system path when
    /// `/etc/lxc` exists on a Red-Hat-family host, else under the user's
    /// home.  Whether `/etc/lxc` exists is probed by the application.
    pub fn lxc_config_path(&self, etc_lxc_exists: bool, home: &str) -> (r: String)
        ensures
            ({
                let rh = self.distro is RHEL || self.distro is CentOS || self.distro is Fedora;
                if rh && etc_lxc_exists {
                    r@ == "/etc/lxc/default.conf"@
                } else {
                    r@ == home@ + "/.config/lxc/default.conf"@
                }
            }),
    {
        let rh = match self.distro {
            LinuxDistribution::RHEL | LinuxDistribution::CentOS | LinuxDistribution::Fedora => true,
            _ => false,
        };
        if rh && etc_lxc_exists {
            String::from_str("/etc/lxc/default.conf")
        } else {
            String::from_str(home).concat("/.config/lxc/default.conf")
        }
    }

    /// The container storage root: the system root when `/var/lib/lxc`
    /// exists, else the per-user root under the given home directory.
    pub fn lxc_container_path(&self, var_lib_lxc_exists: bool, home: &str) -> (r: String)
        ensures
            var_lib_lxc_exists ==> r@ == "/var/lib/lxc"@,
            !var_lib_lxc_exists ==> r@ == home@ + "/.local/share/lxc"@,
    {
        if var_lib_lxc_exists {
            String::from_str("/var/lib/lxc")
        } else {
            String::from_str(home).concat("/.local/share/lxc")
        }
    }

    /// On Red-Hat-family enterprise hosts LXC needs root (or UID mappings).
    pub fn needs_root_for_lxc(&self) -> (b: bool)
        ensures
            b == (self.distro is RHEL || self.distro is CentOS),
    {
        match self.distro {
            LinuxDistribution::RHEL | LinuxDistribution::CentOS => true,
            _ => false,
        }
    }
}


/// The distribution named by an os-release `ID=` value (unquoted), compared
/// case-insensitively.
pub open spec fn distro_of_id(v: Seq<char>) -> Option<LinuxDistribution> {
    let id = lower_seq(v);
    if id == lower_seq("debian"@) {
        Some(LinuxDistribution::Debian)
    } else if id == lower_seq("ubuntu"@) {
        Some(LinuxDistribution::Ubuntu)
    } else if id == lower_seq("fedora"@) {
        Some(LinuxDistribution::Fedora)
    } else if id == lower_seq("rhel"@) || id == lower_seq("redhat"@) {
        Some(LinuxDistribution::RHEL)
    } else if id == lower_seq("centos"@) {
        Some(LinuxDistribution::CentOS)
    } else if id == lower_seq("arch"@) || id == lower_seq("archlinux"@) {
        Some(LinuxDistribution::Arch)
    } else if id == lower_seq("opensuse"@) || id == lower_seq("opensuse-leap"@) || id
        == lower_seq("opensuse-tumbleweed"@) {
        Some(LinuxDistribution::OpenSUSE)
    } else if id == lower_seq("alpine"@) {
        Some(LinuxDistribution::Alpine)
    } else {
        None
    }
}

/// The distribution family named by an os-release `ID_LIKE=` value: the
/// Red-Hat family (with CentOS singled out) or the Debian family (with
/// Ubuntu singled out).
pub open spec fn distro_of_id_like(v: Seq<char>) -> Option<LinuxDistribution> {
    let l = lower_seq(v);
    if contains_seq(l, lower_seq("rhel"@)) || contains_seq(l, lower_seq("fedora"@)) {
        if contains_seq(l, lower_seq("centos"@)) {
            Some(LinuxDistribution::CentOS)
        } else {
            Some(LinuxDistribution::RHEL)
        }
    } else if contains_seq(l, lower_seq("debian"@)) {
        if contains_seq(l, lower_seq("ubuntu"@)) {
            Some(LinuxDistribution::Ubuntu)
        } else {
            Some(LinuxDistribution::Debian)
        }
    } else {
        None
    }
}

/// What one os-release line says about the distribution: its `ID=` value, or
/// failing that its `ID_LIKE=` value, both with surrounding quotes dropped.
pub open spec fn distro_of_line(l: Seq<char>) -> Option<LinuxDistribution> {
    if has_prefix(l, "ID="@) {
        distro_of_id(trim_char_spec(l.skip(3), '"'))
    } else if has_prefix(l, "ID_LIKE="@) {
        distro_of_id_like(trim_char_spec(l.skip(8), '"'))
    } else {
        None
    }
}

/// The first line of the os-release file that names a distribution.
pub open spec fn os_release_distro(lines: Seq<Seq<char>>) -> Option<LinuxDistribution>
    decreases lines.len(),
{
    if lines.len() == 0 {
        None
    } else if distro_of_line(lines[0]) is Some {
        distro_of_line(lines[0])
    } else {
        os_release_distro(lines.drop_first())
    }
}

/// What one os-release line classifies as, as executed.
fn classify_os_release_line(line: &str) -> (r: Option<LinuxDistribution>)
    ensures
        r == distro_of_line(line@),
{
    if starts_with_str(line, "ID=") {
        proof {
            reveal_strlit("ID=");
        }
        let v = trim_matching(line.substring_char(3, line.unicode_len()), '"');
        proof {
            assert(line@.subrange(3, line@.len() as int) =~= line@.skip(3));
        }
        if eq_ignore_case(v, "debian") {
            Some(LinuxDistribution::Debian)
        } else if eq_ignore_case(v, "ubuntu") {
            Some(LinuxDistribution::Ubuntu)
        } else if eq_ignore_case(v, "fedora") {
            Some(LinuxDistribution::Fedora)
        } else if eq_ignore_case(v, "rhel") || eq_ignore_case(v, "redhat") {
            Some(LinuxDistribution::RHEL)
        } else if eq_ignore_case(v, "centos") {
            Some(LinuxDistribution::CentOS)
        } else if eq_ignore_case(v, "arch") || eq_ignore_case(v, "archlinux") {
            Some(LinuxDistribution::Arch)
        } else if eq_ignore_case(v, "opensuse") || eq_ignore_case(v, "opensuse-leap")
            || eq_ignore_case(v, "opensuse-tumbleweed") {
            Some(LinuxDistribution::OpenSUSE)
        } else if eq_ignore_case(v, "alpine") {
            Some(LinuxDistribution::Alpine)
        } else {
            None
        }
    } else if starts_with_str(line, "ID_LIKE=") {
        proof {
            reveal_strlit("ID_LIKE=");
        }
        let v = trim_matching(line.substring_char(8, line.unicode_len()), '"');
        proof {
            assert(line@.subrange(8, line@.len() as int) =~= line@.skip(8));
        }
        if contains_str_ci(v, "rhel") || contains_str_ci(v, "fedora") {
            if contains_str_ci(v, "centos") {
                Some(LinuxDistribution::CentOS)
            } else {
                Some(LinuxDistribution::RHEL)
            }
        } else if contains_str_ci(v, "debian") {
            if contains_str_ci(v, "ubuntu") {
                Some(LinuxDistribution::Ubuntu)
            } else {
                Some(LinuxDistribution::Debian)
            }
        } else {
            None
        }
    } else {
        None
    }
}

/// Classifies the content of the os-release file: the first `ID=` or
/// `ID_LIKE=` line that names a known distribution decides.  The file read
/// is the application's; the decision is made here.
pub fn classify_os_release(content: &str) -> (r: Option<LinuxDistribution>)
    ensures
        r == os_release_distro(lines_spec(content@)),
{
    let lines = split_lines(content);
    let ghost lsv = lines_spec(content@);
    let mut i: usize = 0;
    proof {
        assert(lsv.skip(0) =~= lsv);
    }
    while i < lines.len()
        invariant
            0 <= i <= lines@.len(),
            lines@.len() == lsv.len(),
            forall|j: int| 0 <= j < lines@.len() ==> #[trigger] lines@[j]@ == lsv[j],
            lsv == lines_spec(content@),
            os_release_distro(lsv) == os_release_distro(lsv.skip(i as int)),
        decreases lines@.len() - i,
    {
        let found = classify_os_release_line(lines[i].as_str());
        proof {
            assert(lsv.skip(i as int)[0] == lsv[i as int]);
            assert(lsv.skip(i as int).drop_first() =~= lsv.skip(i + 1));
        }
        if found.is_some() {
            return found;
        }
        i = i + 1;
    }
    proof {
        assert(lsv.skip(i as int).len() == 0);
    }
    None
}

/// Classifies the legacy release file of a Red-Hat-family host: CentOS or
/// Fedora when the text names them, RHEL otherwise.
pub fn classify_redhat_release(content: &str) -> (r: LinuxDistribution)
    ensures
        r == if contains_seq(lower_seq(content@), lower_seq("centos"@)) {
            LinuxDistribution::CentOS
        } else if contains_seq(lower_seq(content@), lower_seq("fedora"@)) {
            LinuxDistribution::Fedora
        } else {
            LinuxDistribution::RHEL
        },
{
    if contains_str_ci(content, "centos") {
        LinuxDistribution::CentOS
    } else if contains_str_ci(content, "fedora") {
        LinuxDistribution::Fedora
    } else {
        LinuxDistribution::RHEL
    }
}

/// The unquoted value of the first `VERSION_ID=` line of the os-release
/// file, if any.
pub open spec fn os_release_version(lines: Seq<Seq<char>>) -> Option<Seq<char>>
    decreases lines.len(),
{
    if lines.len() == 0 {
        None
    } else if has_prefix(lines[0], "VERSION_ID="@) {
        Some(trim_char_spec(lines[0].skip(11), '"'))
    } else {
        os_release_version(lines.drop_first())
    }
}

/// Extracts the distribution version from the os-release file.
pub fn parse_version_id(content: &str) -> (r: Option<String>)
    ensures
        ({
            let v = os_release_version(lines_spec(content@));
            match r {
                Some(s) => v == Some(s@),
                None => v is None,
            }
        }),
{
    let lines = split_lines(content);
    let ghost lsv = lines_spec(content@);
    let mut i: usize = 0;
    proof {
        assert(lsv.skip(0) =~= lsv);
    }
    while i < lines.len()
        invariant
            0 <= i <= lines@.len(),
            lines@.len() == lsv.len(),
            forall|j: int| 0 <= j < lines@.len() ==> #[trigger] lines@[j]@ == lsv[j],
            lsv == lines_spec(content@),
            os_release_version(lsv) == os_release_version(lsv.skip(i as int)),
        decreases lines@.len() - i,
    {
        let line = lines[i].as_str();
        proof {
            assert(lsv.skip(i as int)[0] == lsv[i as int]);
            assert(lsv.skip(i as int).drop_first() =~= lsv.skip(i + 1));
        }
        if starts_with_str(line, "VERSION_ID=") {
            proof {
                reveal_strlit("VERSION_ID=");
            }
            let v = trim_matching(line.substring_char(11, line.unicode_len()), '"');
            proof {
                assert(line@.subrange(11, line@.len() as int) =~= line@.skip(11));
            }
            return Some(String::from_str(v));
        }
        i = i + 1;
    }
    proof {
        assert(lsv.skip(i as int).len() == 0);
    }
    None
}

} // verus!

//! Java installations used to launch the game

use vstd::prelude::*;

use crate::paths::{join_path, spec_join};
use crate::persistent::{PersistentData, PersistentDataJavaInstallation};
use crate::update::UpdateManager;
use crate::text::{chars_of, owned, str_eq, u64_to_decimal};

verus! {

/// The major version of a Java installation
#[derive(Debug, Clone, Copy, PartialEq, Eq, Structural)]
pub struct JavaMajorVersion(pub u16);

impl JavaMajorVersion {
    /// Construct a new major version
    pub fn new(version: u16) -> (r: JavaMajorVersion)
        ensures
            r.0 == version,
    {
        JavaMajorVersion(version)
    }

    /// The version as decimal text
    pub fn to_version_string(&self) -> (r: String)
        ensures
            r@ == crate::text::nat_digits(self.0 as nat),
    {
        u64_to_decimal(self.0 as u64)
    }
}

/// Type of Java installation
#[derive(Debug, Clone, PartialEq, Eq)]
pub enum JavaInstallationKind {
    /// Automatically chooses different Java
    /// flavors based on system conditions
    Auto,
    /// Trys to use a Java installation that is
    /// already on the system
    System,
    /// Adoptium
    Adoptium,
    /// Azul Zulu
    Zulu,
    /// A user-specified installation
    Custom {
        /// The path to the installation. The JVM must live at
        /// `{path}/bin/java`
        path: String,
    },
}

/// The mathematical value of a Java installation kind.
pub enum SJavaKind {
    Auto,
    System,
    Adoptium,
    Zulu,
    Custom(Seq<char>),
}

impl View for JavaInstallationKind {
    type V = SJavaKind;

    open spec fn view(&self) -> SJavaKind {
        match self {
            JavaInstallationKind::Auto => SJavaKind::Auto,
            JavaInstallationKind::System => SJavaKind::System,
            JavaInstallationKind::Adoptium => SJavaKind::Adoptium,
            JavaInstallationKind::Zulu => SJavaKind::Zulu,
            JavaInstallationKind::Custom { path } => SJavaKind::Custom(path@),
        }
    }
}

/// The installation kind that a configuration string names: one of the known flavors, or
/// otherwise the path of a custom installation.
pub open spec fn spec_java_kind(s: Seq<char>) -> SJavaKind {
    if s == "auto"@ {
        SJavaKind::Auto
    } else if s == "system"@ {
        SJavaKind::System
    } else if s == "adoptium"@ {
        SJavaKind::Adoptium
    } else if s == "zulu"@ {
        SJavaKind::Zulu
    } else {
        SJavaKind::Custom(s)
    }
}

impl JavaInstallationKind {
    /// Parse a string into a JavaKind
    pub fn parse(string: &str) -> (r: JavaInstallationKind)
        ensures
            r@ == spec_java_kind(string@),
    {
        if str_eq(string, "auto") {
            JavaInstallationKind::Auto
        } else if str_eq(string, "system") {
            JavaInstallationKind::System
        } else if str_eq(string, "adoptium") {
            JavaInstallationKind::Adoptium
        } else if str_eq(string, "zulu") {
            JavaInstallationKind::Zulu
        } else {
            JavaInstallationKind::Custom { path: owned(string) }
        }
    }

    /// A copy of this kind.
    pub fn duplicate(&self) -> (r: JavaInstallationKind)
        ensures
            r@ == self@,
    {
        match self {
            JavaInstallationKind::Auto => JavaInstallationKind::Auto,
            JavaInstallationKind::System => JavaInstallationKind::System,
            JavaInstallationKind::Adoptium => JavaInstallationKind::Adoptium,
            JavaInstallationKind::Zulu => JavaInstallationKind::Zulu,
            JavaInstallationKind::Custom { path } => JavaInstallationKind::Custom { path: path.clone() },
        }
    }
}

/// A Java installation used to launch the game
#[derive(Debug, Clone)]
pub struct JavaInstallation {
    /// The major version of the Java installation
    major_version: JavaMajorVersion,
    /// The path to the directory where the installation is
    path: String,
}

/// The path of the JVM inside a Java installation directory.
pub open spec fn jvm_rel_path(windows: bool) -> Seq<char> {
    if windows {
        "bin/java.exe"@
    } else {
        "bin/java"@
    }
}

impl JavaInstallation {
    /// The major version.
    pub closed spec fn spec_major_version(&self) -> JavaMajorVersion {
        self.major_version
    }

    /// The installation directory.
    pub closed spec fn spec_path(&self) -> Seq<char> {
        self.path@
    }

    /// A Java installation of the given major version at the given directory
    pub fn new(major_version: JavaMajorVersion, path: String) -> (r: JavaInstallation)
        ensures
            r.spec_major_version() == major_version,
            r.spec_path() == path@,
    {
        JavaInstallation { major_version, path }
    }

    /// Get the major version of the Java installation
    pub fn get_major_version(&self) -> (r: &JavaMajorVersion)
        ensures
            *r == self.spec_major_version(),
    {
        &self.major_version
    }

    /// Get the path to the Java installation
    pub fn get_path(&self) -> (r: &str)
        ensures
            r@ == self.spec_path(),
    {
        self.path.as_str()
    }

    /// Get the path to the JVM; `windows` tells whether the target family is Windows,
    /// where the JVM is `bin/java.exe`
    pub fn get_jvm_path(&self, windows: bool) -> (r: String)
        ensures
            r@ == spec_join(self.spec_path(), jvm_rel_path(windows)),
    {
        if windows {
            join_path(self.path.as_str(), "bin/java.exe")
        } else {
            join_path(self.path.as_str(), "bin/java")
        }
    }
}

/// Where the installation path comes from for a kind that needs no download: the custom
/// path, or none for the kinds that have to be looked up or installed.
pub fn preset_installation_path(kind: &JavaInstallationKind) -> (r: Option<String>)
    ensures
        match kind@ {
            SJavaKind::Custom(p) => r matches Some(s) && s@ == p,
            _ => r is None,
        },
{
    match kind {
        JavaInstallationKind::Custom { path } => Some(path.clone()),
        _ => None,
    }
}

/// Whether `s` holds `pat` somewhere.
pub open spec fn has_infix(s: Seq<char>, pat: Seq<char>) -> bool {
    exists|i: int| 0 <= i && i + pat.len() <= s.len() && #[trigger] s.subrange(i, i + pat.len()) == pat
}

/// A directory of `/usr/lib/jvm` that holds the OpenJDK of the given major version:
/// its name starts with `java-` and holds `-{major}-`.
pub open spec fn spec_linux_java_dir(name: Seq<char>, major: Seq<char>) -> bool {
    name.len() >= 5 && name.subrange(0, 5) == "java-"@ && has_infix(name, seq!['-'] + major + seq!['-'])
}

/// A directory of `C:/Program Files/Java` that holds the JDK of the given major version:
/// its name starts with `jdk-` and holds `-{major}.`.
pub open spec fn spec_windows_java_dir(name: Seq<char>, major: Seq<char>) -> bool {
    name.len() >= 4 && name.subrange(0, 4) == "jdk-"@ && has_infix(name, seq!['-'] + major + seq!['.'])
}

/// Whether `s` holds `pat` somewhere.
pub fn contains_chars(s: &[char], pat: &[char]) -> (r: bool)
    ensures
        r == has_infix(s@, pat@),
{
    if pat.len() > s.len() {
        proof {
            assert forall|i: int| 0 <= i && i + pat@.len() <= s@.len() implies #[trigger] s@.subrange(i, i + pat@.len()) != pat@ by {}
        }
        return false;
    }
    let mut i: usize = 0;
    let last = s.len() - pat.len();
    while i <= last
        invariant
            last == s@.len() - pat@.len(),
            s@.len() <= usize::MAX,
            pat@.len() <= s@.len(),
            i <= s@.len() - pat@.len() + 1,
            forall|k: int| 0 <= k < i ==> #[trigger] s@.subrange(k, k + pat@.len()) != pat@,
        decreases s@.len() - i,
    {
        let mut j: usize = 0;
        let mut same = true;
        while j < pat.len()
            invariant
                i <= last,
                last == s@.len() - pat@.len(),
                pat@.len() <= s@.len(),
                s@.len() <= usize::MAX,
                j <= pat@.len(),
                same <==> (forall|m: int| 0 <= m < j ==> s@[i + m] == pat@[m]),
            decreases pat@.len() - j,
        {
            if s[i + j] != pat[j] {
                same = false;
            }
            j = j + 1;
        }
        if same {
            proof {
                assert(s@.subrange(i as int, i + pat@.len()) =~= pat@);
            }
            return true;
        }
        proof {
            if s@.subrange(i as int, i + pat@.len()) == pat@ {
                assert forall|m: int| 0 <= m < pat@.len() implies s@[i + m] == pat@[m] by {
                    assert(s@.subrange(i as int, i + pat@.len())[m] == s@[i + m]);
                }
            }
        }
        if i == last {
            return false;
        }
        i = i + 1;
    }
    false
}

/// Whether the text starts with the given prefix.
fn starts_with_chars(s: &[char], prefix: &[char]) -> (r: bool)
    ensures
        r == (prefix@.len() <= s@.len() && s@.subrange(0, prefix@.len() as int) == prefix@),
{
    if prefix.len() > s.len() {
        return false;
    }
    let mut j: usize = 0;
    while j < prefix.len()
        invariant
            prefix@.len() <= s@.len(),
            j <= prefix@.len(),
            forall|m: int| 0 <= m < j ==> s@[m] == prefix@[m],
        decreases prefix@.len() - j,
    {
        if s[j] != prefix[j] {
            proof {
                assert(s@.subrange(0, prefix@.len() as int)[j as int] != prefix@[j as int]);
            }
            return false;
        }
        j = j + 1;
    }
    proof {
        assert(s@.subrange(0, prefix@.len() as int) =~= prefix@);
    }
    true
}

/// The pattern `{open}{major}{close}`.
fn surround(open: char, major: &str, close: char) -> (r: Vec<char>)
    ensures
        r@ == seq![open] + major@ + seq![close],
{
    let m = chars_of(major);
    let mut out: Vec<char> = Vec::new();
    out.push(open);
    let mut i: usize = 0;
    while i < m.len()
        invariant
            i <= m@.len(),
            out@ == seq![open] + m@.take(i as int),
        decreases m@.len() - i,
    {
        out.push(m[i]);
        proof {
            assert(m@.take(i + 1) =~= m@.take(i as int).push(m@[i as int]));
        }
        i = i + 1;
    }
    out.push(close);
    proof {
        assert(m@.take(m@.len() as int) =~= m@);
        assert(out@ =~= seq![open] + major@ + seq![close]);
    }
    out
}

/// Whether a directory name of `/usr/lib/jvm` is an OpenJDK of the given major version
pub fn is_linux_java_dir(name: &str, major_version: &str) -> (r: bool)
    ensures
        r == spec_linux_java_dir(name@, major_version@),
{
    proof {
        reveal_strlit("java-");
    }
    let n = chars_of(name);
    let prefix = chars_of("java-");
    let pat = surround('-', major_version, '-');
    starts_with_chars(n.as_slice(), prefix.as_slice()) && contains_chars(n.as_slice(), pat.as_slice())
}

/// Whether a directory name of `C:/Program Files/Java` is a JDK of the given major version
pub fn is_windows_java_dir(name: &str, major_version: &str) -> (r: bool)
    ensures
        r == spec_windows_java_dir(name@, major_version@),
{
    proof {
        reveal_strlit("jdk-");
    }
    let n = chars_of(name);
    let prefix = chars_of("jdk-");
    let pat = surround('-', major_version, '.');
    starts_with_chars(n.as_slice(), prefix.as_slice()) && contains_chars(n.as_slice(), pat.as_slice())
}

/// The name of the directory that an Adoptium release unpacks its JRE to.
pub open spec fn spec_adoptium_dir_name(release_name: Seq<char>) -> Seq<char> {
    release_name + "-jre"@
}

/// The directory that an Adoptium release unpacks its JRE to, inside the output directory
pub fn adoptium_extracted_dir(out_dir: &str, release_name: &str) -> (r: String)
    ensures
        r@ == spec_join(out_dir@, spec_adoptium_dir_name(release_name@)),
{
    let mut name = owned(release_name);
    crate::text::string_push_str(&mut name, "-jre");
    join_path(out_dir, name.as_str())
}

/// The recorded directory of a Java installation that may be used without updating it,
/// which is only where updates may be skipped to stay offline
pub fn offline_java_path(
    manager: &UpdateManager,
    persistent: &PersistentData,
    installation: PersistentDataJavaInstallation,
    major_version: &str,
) -> (r: Option<String>)
    ensures
        !manager.spec_allow_offline() ==> r is None,
        manager.spec_allow_offline() ==> match r {
            Some(p) => persistent.java(installation).contains_key(major_version@) && p@ == persistent.java(
                installation,
            )[major_version@].path@,
            None => !persistent.java(installation).contains_key(major_version@),
        },
{
    if manager.allows_offline() {
        persistent.get_java_path(installation, major_version)
    } else {
        None
    }
}

/// The name of the archive that an Adoptium release of a major version is downloaded to
pub fn adoptium_archive_name(major_version: &str, extension: &str) -> (r: String)
    ensures
        r@ == "adoptium"@ + major_version@ + extension@,
{
    let mut out = owned("adoptium");
    crate::text::string_push_str(&mut out, major_version);
    crate::text::string_push_str(&mut out, extension);
    out
}

} // verus!

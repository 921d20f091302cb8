//! The platforms that the shell runs on, and how it presents itself there.

use vstd::prelude::*;
use vstd::string::*;

verus! {

/// A platform that the shell runs on.
#[derive(Debug, Clone, Copy, PartialEq, Eq, Structural)]
pub enum Platform {
    MacOs,
    Windows,
    Linux,
}

/// The browser version that the user agent names unless a build sets another.
pub const DEFAULT_UA_VERSION: &'static str = "138";

/// How the user agent describes a platform.
pub open spec fn ua_platform(platform: Platform) -> Seq<char> {
    match platform {
        Platform::MacOs => "Macintosh; Intel Mac OS X 10_15_7"@,
        Platform::Windows => "Windows NT 10.0; Win64; x64"@,
        Platform::Linux => "X11; Linux x86_64"@,
    }
}

/// The user agent of Edge on a platform, which names the same version for Chrome
/// and for Edge.
pub open spec fn edge_ua(platform: Platform, version: Seq<char>) -> Seq<char> {
    "Mozilla/5.0 ("@ + ua_platform(platform)
        + ") AppleWebKit/537.36 (KHTML, like Gecko) Chrome/"@ + version
        + ".0.0.0 Safari/537.36 Edg/"@ + version + ".0.0.0"@
}

/// The user agent for a build that sets a version or not.
pub open spec fn build_ua(platform: Platform, build_version: Option<Seq<char>>) -> Seq<char> {
    match build_version {
        Some(version) => edge_ua(platform, version),
        None => edge_ua(platform, DEFAULT_UA_VERSION@),
    }
}

/// The user agent of a standard Edge on the platform, in the version that the
/// build sets or else in [`DEFAULT_UA_VERSION`].
pub fn spoofed_ua(platform: Platform, build_version: Option<&str>) -> (r: String)
    ensures
        r@ == edge_ua(
            platform,
            match build_version {
                Some(version) => version@,
                None => DEFAULT_UA_VERSION@,
            },
        ),
        r@ == build_ua(
            platform,
            match build_version {
                Some(version) => Some(version@),
                None => None,
            },
        ),
{
    let version = match build_version {
        Some(version) => version,
        None => DEFAULT_UA_VERSION,
    };
    let described = match platform {
        Platform::MacOs => "Macintosh; Intel Mac OS X 10_15_7",
        Platform::Windows => "Windows NT 10.0; Win64; x64",
        Platform::Linux => "X11; Linux x86_64",
    };
    let mut out = "Mozilla/5.0 (".to_owned();
    out.append(described);
    out.append(") AppleWebKit/537.36 (KHTML, like Gecko) Chrome/");
    out.append(version);
    out.append(".0.0.0 Safari/537.36 Edg/");
    out.append(version);
    out.append(".0.0.0");
    out
}

/// The scripts that run in every page, one after the other on lines of their own.
pub open spec fn init_script(
    spoof: Seq<char>,
    init: Seq<char>,
    selftest: Option<Seq<char>>,
) -> Seq<char> {
    let production = spoof + "\n"@ + init;
    match selftest {
        Some(script) => production + "\n"@ + script,
        None => production,
    }
}

/// The script to run in every page: the runtime adaptation, the session bridge
/// and, where self tests are on, the self test.
pub fn build_init_script(spoof: &str, init: &str, selftest: Option<&str>) -> (r: String)
    ensures
        r@ == init_script(
            spoof@,
            init@,
            match selftest {
                Some(script) => Some(script@),
                None => None,
            },
        ),
{
    let mut out = spoof.to_owned();
    out.append("\n");
    out.append(init);
    match selftest {
        Some(script) => {
            out.append("\n");
            out.append(script);
        },
        None => {},
    }
    out
}

/// The user agent of each platform is that of Edge there, in the given version for
/// Chrome and for Edge alike, whatever the version.
pub proof fn law_user_agents_name_the_version(version: Seq<char>)
    ensures
        edge_ua(Platform::MacOs, version) == "Mozilla/5.0 (Macintosh; Intel Mac OS X 10_15_7) AppleWebKit/537.36 (KHTML, like Gecko) Chrome/"@ + version
            + ".0.0.0 Safari/537.36 Edg/"@ + version + ".0.0.0"@,
        edge_ua(Platform::Windows, version) == "Mozilla/5.0 (Windows NT 10.0; Win64; x64) AppleWebKit/537.36 (KHTML, like Gecko) Chrome/"@ + version
            + ".0.0.0 Safari/537.36 Edg/"@ + version + ".0.0.0"@,
        edge_ua(Platform::Linux, version) == "Mozilla/5.0 (X11; Linux x86_64) AppleWebKit/537.36 (KHTML, like Gecko) Chrome/"@ + version
            + ".0.0.0 Safari/537.36 Edg/"@ + version + ".0.0.0"@,
{
    reveal_strlit("Mozilla/5.0 (");
    reveal_strlit(") AppleWebKit/537.36 (KHTML, like Gecko) Chrome/");
    reveal_strlit(
        "Mozilla/5.0 (Macintosh; Intel Mac OS X 10_15_7) AppleWebKit/537.36 (KHTML, like Gecko) Chrome/",
    );
    reveal_strlit("Macintosh; Intel Mac OS X 10_15_7");
    reveal_strlit(
        "Mozilla/5.0 (Windows NT 10.0; Win64; x64) AppleWebKit/537.36 (KHTML, like Gecko) Chrome/",
    );
    reveal_strlit("Windows NT 10.0; Win64; x64");
    reveal_strlit(
        "Mozilla/5.0 (X11; Linux x86_64) AppleWebKit/537.36 (KHTML, like Gecko) Chrome/",
    );
    reveal_strlit("X11; Linux x86_64");
    assert("Mozilla/5.0 ("@ + "Macintosh; Intel Mac OS X 10_15_7"@
        + ") AppleWebKit/537.36 (KHTML, like Gecko) Chrome/"@
        =~= "Mozilla/5.0 (Macintosh; Intel Mac OS X 10_15_7) AppleWebKit/537.36 (KHTML, like Gecko) Chrome/"@);
    assert("Mozilla/5.0 ("@ + "Windows NT 10.0; Win64; x64"@
        + ") AppleWebKit/537.36 (KHTML, like Gecko) Chrome/"@
        =~= "Mozilla/5.0 (Windows NT 10.0; Win64; x64) AppleWebKit/537.36 (KHTML, like Gecko) Chrome/"@);
    assert("Mozilla/5.0 ("@ + "X11; Linux x86_64"@
        + ") AppleWebKit/537.36 (KHTML, like Gecko) Chrome/"@
        =~= "Mozilla/5.0 (X11; Linux x86_64) AppleWebKit/537.36 (KHTML, like Gecko) Chrome/"@);
}

/// The runtime adaptation comes first, the session bridge on the next line, and the
/// self test, where there is one, on a line after both; nothing else is added, and
/// none of them is changed.
pub proof fn law_scripts_come_in_order(spoof: Seq<char>, init: Seq<char>, test: Seq<char>)
    ensures
        init_script(spoof, init, None) == spoof + seq!['\n'] + init,
        init_script(spoof, init, Some(test)) == init_script(spoof, init, None) + seq!['\n'] + test,
{
    reveal_strlit("\n");
    assert("\n"@ =~= seq!['\n']);
}

/// A version that the build sets is the one named, whatever it is, and a build that
/// sets none is as one that sets 138.
pub proof fn law_builds_set_the_version(platform: Platform, version: Seq<char>)
    ensures
        build_ua(platform, Some(version)) == edge_ua(platform, version),
        build_ua(platform, None) == build_ua(platform, Some("138"@)),
{
}

} // verus!

//! Self-update: reading the latest GitHub release and choosing what to install.
use vstd::prelude::*;

use crate::text::str_eq;

verus! {

pub const REPO: &'static str = "Rorical/RemoText";

/// The parts of a GitHub release that the updater reads.
#[derive(Debug, Clone)]
pub struct GithubRelease {
    pub tag_name: String,
    pub assets: Vec<GithubAsset>,
}

#[derive(Debug, Clone)]
pub struct GithubAsset {
    pub name: String,
    pub browser_download_url: String,
}

/// The URL of the latest release of this project.
pub fn latest_release_url() -> (r: String)
    ensures
        r@ == "https://api.github.com/repos/"@ + REPO@ + "/releases/latest"@,
{
    let mut s = String::from_str("https://api.github.com/repos/");
    s.append(REPO);
    s.append("/releases/latest");
    s
}

/// A release tag without its leading `v`.
pub open spec fn tag_version(tag: Seq<char>) -> Seq<char> {
    if tag.len() > 0 && tag[0] == 'v' {
        tag.subrange(1, tag.len() as int)
    } else {
        tag
    }
}

/// The version a release tag names.
pub fn latest_version(tag: &str) -> (r: String)
    ensures
        r@ == tag_version(tag@),
{
    let n = tag.unicode_len();
    if n > 0 && tag.get_char(0) == 'v' {
        tag.substring_char(1, n).to_owned()
    } else {
        tag.to_owned()
    }
}

/// A decimal digit.
pub open spec fn is_digit(c: char) -> bool {
    '0' <= c && c <= '9'
}

/// Reading a version text from the left: the numbers finished so far, the
/// number being read, how many digits it has so far, and whether the text read
/// is still the start of a version (digits, with single dots between numbers,
/// each number at most `u64::MAX`).
pub open spec fn version_scan(s: Seq<char>) -> (Seq<nat>, nat, nat, bool)
    decreases s.len(),
{
    if s.len() == 0 {
        (Seq::empty(), 0, 0, true)
    } else {
        let st = version_scan(s.drop_last());
        let c = s.last();
        if !st.3 {
            (st.0, st.1, st.2, false)
        } else if is_digit(c) {
            let v = st.1 * 10 + ((c as int) - 48) as nat;
            (st.0, v, st.2 + 1, v <= u64::MAX)
        } else if c == '.' && st.2 > 0 {
            (st.0.push(st.1), 0, 0, true)
        } else {
            (st.0, st.1, st.2, false)
        }
    }
}

/// The numbers of a dotted version such as `0.3.0`, or `None` when the text is
/// not one.
pub open spec fn version_parts(s: Seq<char>) -> Option<Seq<nat>> {
    let st = version_scan(s);
    if st.3 && st.2 > 0 {
        Some(st.0.push(st.1))
    } else {
        None
    }
}

/// The `i`-th number of a version; a version has zeros after its last number.
pub open spec fn part_at(v: Seq<nat>, i: int) -> nat {
    if 0 <= i < v.len() {
        v[i]
    } else {
        0
    }
}

/// Version `a` is greater than `b` when first compared at number `i`.
pub open spec fn version_greater_from(a: Seq<nat>, b: Seq<nat>, i: nat) -> bool
    decreases a.len() + b.len() - i,
{
    if i >= a.len() && i >= b.len() {
        false
    } else if part_at(a, i as int) > part_at(b, i as int) {
        true
    } else if part_at(a, i as int) < part_at(b, i as int) {
        false
    } else {
        version_greater_from(a, b, i + 1)
    }
}

/// Number `k` of a version, counted from 0; a version has zeros after its last
/// number.
pub open spec fn nth_number(v: Seq<nat>, k: nat) -> nat {
    if k < v.len() {
        v[k as int]
    } else {
        0
    }
}

/// Version `a` is greater than version `b` exactly when, at some position `k`,
/// `a`'s number is greater and at every position before `k` the two numbers are
/// equal; so two versions that differ only in a greater last number of `a`
/// (`0.3.1` against `0.3.0`) count as greater.
pub proof fn lemma_version_order(a: Seq<nat>, b: Seq<nat>)
    ensures
        version_greater_from(a, b, 0) <==> exists|k: nat|
            (forall|j: nat| j < k ==> #[trigger] nth_number(a, j) == nth_number(b, j)) && #[trigger] nth_number(
                a,
                k,
            ) > nth_number(b, k),
{
    lemma_version_order_from(a, b, 0);
}

proof fn lemma_version_order_from(a: Seq<nat>, b: Seq<nat>, i: nat)
    ensures
        version_greater_from(a, b, i) <==> exists|k: nat|
            i <= k && (forall|j: nat| i <= j < k ==> #[trigger] nth_number(a, j) == nth_number(b, j))
                && #[trigger] nth_number(a, k) > nth_number(b, k),
    decreases a.len() + b.len() - i,
{
    assert(part_at(a, i as int) == nth_number(a, i));
    assert(part_at(b, i as int) == nth_number(b, i));
    if i >= a.len() && i >= b.len() {
        assert forall|k: nat| i <= k implies !(#[trigger] nth_number(a, k) > nth_number(b, k)) by {}
    } else if nth_number(a, i) > nth_number(b, i) {
        assert(nth_number(a, i) > nth_number(b, i));
    } else if nth_number(a, i) < nth_number(b, i) {
        assert forall|k: nat|
            i <= k && (forall|j: nat| i <= j < k ==> #[trigger] nth_number(a, j) == nth_number(b, j)) implies !(
        #[trigger] nth_number(a, k) > nth_number(b, k)) by {
            if k > i {
                assert(nth_number(a, i) == nth_number(b, i));
            }
        }
    } else {
        lemma_version_order_from(a, b, i + 1);
        if version_greater_from(a, b, i + 1) {
            let k = choose|k: nat|
                i + 1 <= k && (forall|j: nat| i + 1 <= j < k ==> #[trigger] nth_number(a, j) == nth_number(b, j))
                    && #[trigger] nth_number(a, k) > nth_number(b, k);
            assert forall|j: nat| i <= j < k implies #[trigger] nth_number(a, j) == nth_number(b, j) by {}
        } else {
            assert forall|k: nat|
                i <= k && (forall|j: nat| i <= j < k ==> #[trigger] nth_number(a, j) == nth_number(b, j)) implies !(
            #[trigger] nth_number(a, k) > nth_number(b, k)) by {
                if k > i {
                    assert forall|j: nat| i + 1 <= j < k implies #[trigger] nth_number(a, j) == nth_number(b, j) by {}
                }
            }
        }
    }
}

/// `latest` counts as an update of `current`: when both are dotted versions, the
/// first number in which they differ is greater in `latest`; when either is not
/// (a tag such as `v1.0.0-rc.1`), the two texts differ.
pub open spec fn is_newer(latest: Seq<char>, current: Seq<char>) -> bool {
    match (version_parts(latest), version_parts(current)) {
        (Some(a), Some(b)) => version_greater_from(a, b, 0),
        _ => latest != current,
    }
}

pub open spec fn nat_view(v: Seq<u64>) -> Seq<nat> {
    v.map_values(|x: u64| x as nat)
}

proof fn lemma_scan_stays_failed(s: Seq<char>, i: int)
    requires
        0 <= i <= s.len(),
        !version_scan(s.subrange(0, i)).3,
    ensures
        !version_scan(s).3,
    decreases s.len() - i,
{
    if i == s.len() {
        assert(s.subrange(0, i) =~= s);
    } else {
        assert(s.subrange(0, i + 1).drop_last() =~= s.subrange(0, i));
        lemma_scan_stays_failed(s, i + 1);
    }
}

/// Reads a dotted version into its numbers.
fn parse_version(s: &str) -> (r: Option<Vec<u64>>)
    ensures
        match version_parts(s@) {
            Some(p) => r matches Some(v) && nat_view(v@) == p,
            None => r is None,
        },
{
    let n = s.unicode_len();
    let mut parts: Vec<u64> = Vec::new();
    let mut cur: u64 = 0;
    let mut digits: usize = 0;
    let mut i: usize = 0;
    while i < n
        invariant
            i <= n,
            n == s@.len(),
            digits <= i,
            version_scan(s@.subrange(0, i as int)).3,
            nat_view(parts@) == version_scan(s@.subrange(0, i as int)).0,
            cur == version_scan(s@.subrange(0, i as int)).1,
            digits == version_scan(s@.subrange(0, i as int)).2,
        decreases n - i,
    {
        let ghost pre = s@.subrange(0, i as int);
        let ghost post = s@.subrange(0, i + 1);
        assert(post.drop_last() =~= pre);
        assert(post.last() == s@[i as int]);
        let c = s.get_char(i);
        if '0' <= c && c <= '9' {
            let d: u64 = (c as u32 - 48) as u64;
            assert(d == (c as int) - 48);
            if cur > (u64::MAX - d) / 10 {
                assert(cur * 10 + d > u64::MAX) by (nonlinear_arith)
                    requires
                        cur > (u64::MAX - d) / 10,
                        d <= 9,
                ;
                proof {
                    lemma_scan_stays_failed(s@, i + 1);
                }
                return None;
            }
            assert(cur * 10 + d <= u64::MAX) by (nonlinear_arith)
                requires
                    cur <= (u64::MAX - d) / 10,
                    d <= 9,
            ;
            cur = cur * 10 + d;
            digits = digits + 1;
        } else if c == '.' && digits > 0 {
            assert(nat_view(parts@.push(cur)) =~= nat_view(parts@).push(cur as nat));
            parts.push(cur);
            cur = 0;
            digits = 0;
        } else {
            proof {
                lemma_scan_stays_failed(s@, i + 1);
            }
            return None;
        }
        i = i + 1;
    }
    assert(s@.subrange(0, n as int) =~= s@);
    if digits == 0 {
        return None;
    }
    assert(nat_view(parts@.push(cur)) =~= nat_view(parts@).push(cur as nat));
    parts.push(cur);
    Some(parts)
}

/// Whether version `a` is greater than version `b`.
fn version_greater(a: &Vec<u64>, b: &Vec<u64>) -> (r: bool)
    ensures
        r == version_greater_from(nat_view(a@), nat_view(b@), 0),
{
    let ghost av = nat_view(a@);
    let ghost bv = nat_view(b@);
    let n = if a.len() > b.len() {
        a.len()
    } else {
        b.len()
    };
    let mut i: usize = 0;
    while i < n
        invariant
            i <= n,
            n == (if a@.len() > b@.len() { a@.len() } else { b@.len() }),
            av == nat_view(a@),
            bv == nat_view(b@),
            version_greater_from(av, bv, 0) == version_greater_from(av, bv, i as nat),
        decreases n - i,
    {
        let x: u64 = if i < a.len() {
            a[i]
        } else {
            0
        };
        let y: u64 = if i < b.len() {
            b[i]
        } else {
            0
        };
        assert(x == part_at(av, i as int));
        assert(y == part_at(bv, i as int));
        if x > y {
            return true;
        }
        if x < y {
            return false;
        }
        i = i + 1;
    }
    false
}

/// Whether `latest` counts as an update of `current` (see `is_newer`).
pub fn is_newer_version(latest: &str, current: &str) -> (r: bool)
    ensures
        r == is_newer(latest@, current@),
{
    match (parse_version(latest), parse_version(current)) {
        (Some(a), Some(b)) => version_greater(&a, &b),
        _ => !str_eq(latest, current),
    }
}

/// The version of a release when it counts as an update of the running version
/// `current`: a later dotted version, or any other tag that differs from it;
/// `None` for the same or an earlier dotted version.
pub fn check_for_update(current: &str, release: &GithubRelease) -> (r: Option<String>)
    ensures
        is_newer(tag_version(release.tag_name@), current@) ==> (r matches Some(v) && v@ == tag_version(
            release.tag_name@,
        )),
        !is_newer(tag_version(release.tag_name@), current@) ==> r is None,
{
    let latest = latest_version(release.tag_name.as_str());
    if is_newer_version(latest.as_str(), current) {
        Some(latest)
    } else {
        None
    }
}

pub open spec fn supported_os(os: Seq<char>) -> bool {
    os == "linux"@ || os == "macos"@ || os == "windows"@
}

pub open spec fn supported_arch(arch: Seq<char>) -> bool {
    arch == "x86_64"@ || arch == "aarch64"@
}

/// The release asset for an operating system and architecture (as std names
/// them), when releases are built for them.
pub fn asset_name_for_current_platform(os: &str, arch: &str) -> (r: Result<String, String>)
    ensures
        !supported_os(os@) ==> (r matches Err(t) && t@ == "unsupported operating system for self-update"@),
        supported_os(os@) && !supported_arch(arch@) ==> (r matches Err(t) && t@
            == "unsupported architecture for self-update"@),
        supported_os(os@) && supported_arch(arch@) ==> (r matches Ok(n) && n@ == "remotext-"@ + os@ + "-"@
            + arch@),
{
    if !(str_eq(os, "linux") || str_eq(os, "macos") || str_eq(os, "windows")) {
        return Err(String::from_str("unsupported operating system for self-update"));
    }
    if !(str_eq(arch, "x86_64") || str_eq(arch, "aarch64")) {
        return Err(String::from_str("unsupported architecture for self-update"));
    }
    let mut s = String::from_str("remotext-");
    s.append(os);
    s.append("-");
    s.append(arch);
    Ok(s)
}

/// The archive a release ships for a platform: a zip on Windows, else a tarball.
pub fn archive_filename(asset_name: &str, windows: bool) -> (r: String)
    ensures
        r@ == asset_name@ + (if windows { ".zip"@ } else { ".tar.gz"@ }),
{
    let mut s = asset_name.to_owned();
    if windows {
        s.append(".zip");
    } else {
        s.append(".tar.gz");
    }
    s
}

/// The name of the program inside the archive.
pub fn binary_name(windows: bool) -> (r: &'static str)
    ensures
        r@ == (if windows { "remotext.exe"@ } else { "remotext"@ }),
{
    if windows {
        "remotext.exe"
    } else {
        "remotext"
    }
}

/// The download URL of the first asset with this name.
pub fn find_asset_url(assets: &Vec<GithubAsset>, filename: &str) -> (r: Option<String>)
    ensures
        r is None <==> (forall|i: int| 0 <= i < assets@.len() ==> #[trigger] assets@[i].name@ != filename@),
        r matches Some(u) ==> exists|i: int|
            0 <= i < assets@.len() && #[trigger] assets@[i].name@ == filename@ && u@
                == assets@[i].browser_download_url@ && (forall|j: int|
                0 <= j < i ==> assets@[j].name@ != filename@),
{
    let n = assets.len();
    let mut i: usize = 0;
    while i < n
        invariant
            i <= n,
            n == assets@.len(),
            forall|j: int| 0 <= j < i ==> #[trigger] assets@[j].name@ != filename@,
        decreases n - i,
    {
        if str_eq(assets[i].name.as_str(), filename) {
            return Some(assets[i].browser_download_url.clone());
        }
        i = i + 1;
    }
    None
}

/// What a self-update installs.
#[derive(Debug, Clone)]
pub struct UpdatePlan {
    pub latest: String,
    pub filename: String,
    pub download_url: String,
    pub binary_name: String,
}

/// The archive a release ships for a platform.
pub open spec fn archive_text(os: Seq<char>, arch: Seq<char>, windows: bool) -> Seq<char> {
    "remotext-"@ + os + "-"@ + arch + (if windows {
        ".zip"@
    } else {
        ".tar.gz"@
    })
}

/// Asset `i` is the first in the list with this name.
pub open spec fn first_asset_named(assets: Seq<GithubAsset>, name: Seq<char>, i: int) -> bool {
    0 <= i < assets.len() && assets[i].name@ == name && forall|j: int|
        0 <= j < i ==> #[trigger] assets[j].name@ != name
}

/// Chooses what to install from a release: nothing unless it counts as an
/// update of the running version (see `is_newer`), else the first asset of the
/// release that is the archive for this platform, which the release must carry.
pub fn plan_self_update(release: &GithubRelease, current: &str, os: &str, arch: &str, windows: bool) -> (r:
    Result<UpdatePlan, String>)
    ensures
        !is_newer(tag_version(release.tag_name@), current@) ==> (r matches Err(t) && t@
            == "already on latest version v"@ + tag_version(release.tag_name@)),
        is_newer(tag_version(release.tag_name@), current@) && !supported_os(os@) ==> (r matches Err(t) && t@
            == "unsupported operating system for self-update"@),
        is_newer(tag_version(release.tag_name@), current@) && supported_os(os@) && !supported_arch(arch@) ==> (
        r matches Err(t) && t@ == "unsupported architecture for self-update"@),
        is_newer(tag_version(release.tag_name@), current@) && supported_os(os@) && supported_arch(arch@) && (
        forall|i: int|
            0 <= i < release.assets@.len() ==> #[trigger] release.assets@[i].name@ != archive_text(
                os@,
                arch@,
                windows,
            )) ==> (r matches Err(t) && t@ == "release asset "@ + archive_text(os@, arch@, windows)
            + " not found for this platform"@),
        r matches Ok(p) ==> p.latest@ == tag_version(release.tag_name@) && is_newer(p.latest@, current@)
            && supported_os(os@) && supported_arch(arch@) && p.filename@ == archive_text(os@, arch@, windows)
            && p.binary_name@ == (if windows {
            "remotext.exe"@
        } else {
            "remotext"@
        }) && exists|i: int|
            first_asset_named(release.assets@, p.filename@, i) && p.download_url@
                == #[trigger] release.assets@[i].browser_download_url@,
        is_newer(tag_version(release.tag_name@), current@) && supported_os(os@) && supported_arch(arch@) && (exists|i: int|
            0 <= i < release.assets@.len() && #[trigger] release.assets@[i].name@ == archive_text(os@, arch@, windows))
            ==> r is Ok,
{
    let latest = latest_version(release.tag_name.as_str());
    if !is_newer_version(latest.as_str(), current) {
        let mut s = String::from_str("already on latest version v");
        s.append(latest.as_str());
        return Err(s);
    }
    let asset = match asset_name_for_current_platform(os, arch) {
        Ok(a) => a,
        Err(e) => return Err(e),
    };
    let filename = archive_filename(asset.as_str(), windows);
    let download_url = match find_asset_url(&release.assets, filename.as_str()) {
        Some(u) => u,
        None => {
            let mut s = String::from_str("release asset ");
            s.append(filename.as_str());
            s.append(" not found for this platform");
            return Err(s);
        },
    };
    let bin = binary_name(windows).to_owned();
    Ok(UpdatePlan { latest, filename, download_url, binary_name: bin })
}

} // verus!

//! Where things are: the files and folders under the launcher's data
//! directory, and the addresses that are asked over the network. Paths are
//! plain strings with `/` between their parts.

use vstd::prelude::*;
use vstd::string::StringExecFns;
use crate::text::{decimal, decimal_string, join2, join3};

verus! {

/// The launcher's data directory: `vs_launcher` under the user's local data
/// directory, or under `~/.local/share` where the system names none.
pub open spec fn data_root_spec(local_data: Option<Seq<char>>) -> Seq<char> {
    (match local_data {
        Some(dir) => dir,
        None => "~/.local/share"@,
    }) + "/vs_launcher"@
}

/// The folder of everything that belongs to one version.
pub open spec fn version_dir_spec(root: Seq<char>, ver: Seq<char>) -> Seq<char> {
    root + "/versions/"@ + ver
}

/// The file into which the archive of a version is downloaded.
pub open spec fn archive_path_spec(root: Seq<char>, ver: Seq<char>) -> Seq<char> {
    version_dir_spec(root, ver) + "/vs_archive.tar.gz"@
}

/// The folder into which the archive of a version is extracted.
pub open spec fn install_dir_spec(root: Seq<char>, ver: Seq<char>) -> Seq<char> {
    version_dir_spec(root, ver) + "/install"@
}

/// The folder from which an installed version is run.
pub open spec fn launch_root_spec(root: Seq<char>, ver: Seq<char>) -> Seq<char> {
    install_dir_spec(root, ver) + "/vintagestory"@
}

/// The folder of one instance.
pub open spec fn instance_dir_spec(root: Seq<char>, name: Seq<char>) -> Seq<char> {
    root + "/instances/"@ + name
}

/// The address of the archive of a version.
pub open spec fn archive_url_spec(ver: Seq<char>) -> Seq<char> {
    "https://cdn.vintagestory.at/gamefiles/stable/"@ + "vs_client_linux-x64_"@ + ver
        + ".tar.gz"@
}

/// The address of one page of the mod listing, newest first.
pub open spec fn mods_url_spec(page: nat, size: nat) -> Seq<char> {
    "https://mods.vintagestory.at/api/mods?page="@ + decimal(page) + "&pageSize="@ + decimal(size)
        + "&sort=latest"@
}

/// What a list of strings stands for.
pub open spec fn texts(list: Seq<String>) -> Seq<Seq<char>> {
    Seq::new(list.len(), |i: int| list[i]@)
}

/// The launcher's data directory.
pub fn data_root(local_data: Option<&str>) -> (root: String)
    ensures
        root@ == data_root_spec(
            match local_data {
                Some(dir) => Some(dir@),
                None => None,
            },
        ),
{
    match local_data {
        Some(dir) => join2(dir, "/vs_launcher"),
        None => join2("~/.local/share", "/vs_launcher"),
    }
}

/// The folder that holds one folder for each version.
pub fn versions_dir(root: &str) -> (dir: String)
    ensures
        dir@ == root@ + "/versions"@,
{
    join2(root, "/versions")
}

/// The file into which the archive of a version is downloaded.
pub fn archive_path(root: &str, ver: &str) -> (path: String)
    ensures
        path@ == archive_path_spec(root@, ver@),
{
    let mut path = join3(root, "/versions/", ver);
    path.append("/vs_archive.tar.gz");
    path
}

/// The folder into which the archive of a version is extracted.
pub fn install_dir(root: &str, ver: &str) -> (path: String)
    ensures
        path@ == install_dir_spec(root@, ver@),
{
    let mut path = join3(root, "/versions/", ver);
    path.append("/install");
    path
}

/// The folder from which an installed version is run.
pub fn launch_root(root: &str, ver: &str) -> (path: String)
    ensures
        path@ == launch_root_spec(root@, ver@),
{
    let mut path = install_dir(root, ver);
    path.append("/vintagestory");
    path
}

/// The places of which one has to exist for a version to count as
/// installed: the game's executable directly under the install folder, under
/// either of its names, or one folder further down.
pub fn install_probes(root: &str, ver: &str) -> (paths: Vec<String>)
    ensures
        texts(paths@) == seq![
            install_dir_spec(root@, ver@) + "/vintagestory"@,
            install_dir_spec(root@, ver@) + "/vintagestory.exe"@,
            install_dir_spec(root@, ver@) + "/vintagestory/vintagestory"@,
        ],
{
    let dir = install_dir(root, ver);
    let mut paths: Vec<String> = Vec::new();
    paths.push(join2(dir.as_str(), "/vintagestory"));
    paths.push(join2(dir.as_str(), "/vintagestory.exe"));
    paths.push(join2(dir.as_str(), "/vintagestory/vintagestory"));
    assert(texts(paths@) =~= seq![
        install_dir_spec(root@, ver@) + "/vintagestory"@,
        install_dir_spec(root@, ver@) + "/vintagestory.exe"@,
        install_dir_spec(root@, ver@) + "/vintagestory/vintagestory"@,
    ]);
    paths
}

/// Tells whether a version is installed, from what was found at its probe
/// places: one that exists is enough.
pub fn is_installed(found: &Vec<bool>) -> (installed: bool)
    ensures
        installed == exists|i: int| 0 <= i < found.len() && found[i],
{
    let mut i: usize = 0;
    while i < found.len()
        invariant
            i <= found.len(),
            forall|j: int| 0 <= j < i ==> !found[j],
        decreases found.len() - i,
    {
        if found[i] {
            return true;
        }
        i += 1;
    }
    false
}

/// The executables that are tried when a version is launched, in the order
/// in which they are tried.
pub fn launch_candidates(root: &str, ver: &str) -> (paths: Vec<String>)
    ensures
        texts(paths@) == seq![
            launch_root_spec(root@, ver@) + "/Vintagestory"@,
            launch_root_spec(root@, ver@) + "/run.sh"@,
            launch_root_spec(root@, ver@) + "/Vintagestory.exe"@,
        ],
{
    let dir = launch_root(root, ver);
    let mut paths: Vec<String> = Vec::new();
    paths.push(join2(dir.as_str(), "/Vintagestory"));
    paths.push(join2(dir.as_str(), "/run.sh"));
    paths.push(join2(dir.as_str(), "/Vintagestory.exe"));
    assert(texts(paths@) =~= seq![
        launch_root_spec(root@, ver@) + "/Vintagestory"@,
        launch_root_spec(root@, ver@) + "/run.sh"@,
        launch_root_spec(root@, ver@) + "/Vintagestory.exe"@,
    ]);
    paths
}

/// The file in which the list of instances is kept.
pub fn instances_file(root: &str) -> (path: String)
    ensures
        path@ == root@ + "/instances.json"@,
{
    join2(root, "/instances.json")
}

/// The folder of one instance.
pub fn instance_dir(root: &str, name: &str) -> (path: String)
    ensures
        path@ == instance_dir_spec(root@, name@),
{
    join3(root, "/instances/", name)
}

/// The folder of the mods of one instance.
pub fn instance_mods_dir(root: &str, name: &str) -> (path: String)
    ensures
        path@ == instance_dir_spec(root@, name@) + "/mods"@,
{
    let mut path = instance_dir(root, name);
    path.append("/mods");
    path
}

/// The address at which the catalog of versions is asked.
pub fn catalog_url() -> (url: String)
    ensures
        url@ == "https://mods.vintagestory.at/api/gameversions"@,
{
    String::from_str("https://mods.vintagestory.at/api/gameversions")
}

/// The address of the archive of a version.
pub fn archive_url(ver: &str) -> (url: String)
    ensures
        url@ == archive_url_spec(ver@),
{
    let mut url = join3("https://cdn.vintagestory.at/gamefiles/stable/", "vs_client_linux-x64_", ver);
    url.append(".tar.gz");
    url
}

/// The address of one page of the mod listing.
pub fn mods_url(page: usize, size: usize) -> (url: String)
    ensures
        url@ == mods_url_spec(page as nat, size as nat),
{
    let p = decimal_string(page as u64);
    let s = decimal_string(size as u64);
    let mut url = join3("https://mods.vintagestory.at/api/mods?page=", p.as_str(), "&pageSize=");
    url.append(s.as_str());
    url.append("&sort=latest");
    url
}

} // verus!

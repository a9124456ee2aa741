//! The files of a Celix bundle and the names they carry: the library that
//! Cargo builds, the bundle manifest, the framework configuration and the
//! places the bundles are deployed to.

use vstd::prelude::*;
use vstd::string::*;

use crate::cargo_toml::{LookupError, lookup_outcome, outcome_view, toml_lookup, try_toml_lookup};
use crate::locate::{temp_dir, temp_dir_spec};
use crate::text::{underscore_name, underscored};

verus! {

/// The package name recorded in the text of a `Cargo.toml`.
pub open spec fn package_name_of(cargo_toml: Seq<char>) -> Result<Seq<char>, LookupError> {
    lookup_outcome(cargo_toml, "package.name"@)
}

/// The package version recorded in the text of a `Cargo.toml`.
pub open spec fn package_version_of(cargo_toml: Seq<char>) -> Result<Seq<char>, LookupError> {
    lookup_outcome(cargo_toml, "package.version"@)
}

/// Applies `f` to a successfully looked-up package name.
pub open spec fn with_name(
    name: Result<Seq<char>, LookupError>,
    f: spec_fn(Seq<char>) -> Seq<char>,
) -> Result<Seq<char>, LookupError> {
    match name {
        Ok(n) => Ok(f(n)),
        Err(e) => Err(e),
    }
}

// ---------------------------------------------------------------------------
// The library file

/// The file name of the library built for `package`, between `pre` and `ext`:
/// `pre`, the package name with `-` turned into `_`, then `ext`.
pub open spec fn lib_file_name(pre: Seq<char>, ext: Seq<char>, package: Seq<char>) -> Seq<char> {
    pre + underscored(package) + ext
}

/// Builds the library file name of `package` between `pre` and `ext`; for
/// instance `lib_name("lib", ".so", "my-bundle")` is `libmy_bundle.so`.
pub fn lib_name(pre: &str, ext: &str, package: &str) -> (res: String)
    ensures
        res@ == lib_file_name(pre@, ext@, package@),
{
    let mut res = String::from_str(pre);
    let base = underscore_name(package);
    res.append(base.as_str());
    res.append(ext);
    res
}

/// The library file name, between `pre` and `ext`, of the package whose
/// `Cargo.toml` reads `cargo_toml`. The text must name the package.
pub fn get_lib_name(pre: &str, ext: &str, cargo_toml: &str) -> (res: String)
    requires
        package_name_of(cargo_toml@) is Ok,
    ensures
        res@ == lib_file_name(pre@, ext@, package_name_of(cargo_toml@)->Ok_0),
{
    let name = toml_lookup(cargo_toml, "package.name");
    lib_name(pre, ext, name.as_str())
}

/// The library file name, between `pre` and `ext`, of the package whose
/// `Cargo.toml` reads `cargo_toml`, or why the package name cannot be read.
pub fn try_get_lib_name(pre: &str, ext: &str, cargo_toml: &str) -> (res: Result<String, LookupError>)
    ensures
        outcome_view(res) == with_name(
            package_name_of(cargo_toml@),
            |n: Seq<char>| lib_file_name(pre@, ext@, n),
        ),
{
    match try_toml_lookup(cargo_toml, "package.name") {
        Ok(_) => Ok(get_lib_name(pre, ext, cargo_toml)),
        Err(e) => Err(e),
    }
}

// ---------------------------------------------------------------------------
// The manifest

/// The text of `META-INF/MANIFEST.MF` for `package` at `version`, created at
/// `creation_time`.
pub open spec fn manifest_spec(package: Seq<char>, version: Seq<char>, creation_time: Seq<char>) -> Seq<char> {
    let n = underscored(package);
    let lib = lib_file_name("lib"@, ".so"@, package);
    "Manifest-Version: 1.0\nBundle-SymbolicName: "@ + n + "\nBundle-Name: "@ + n
        + "\nBundle-Version: "@ + version + "\nBundle-Activator: "@ + lib
        + "\nPrivate-Library: "@ + lib + "\nCREATION-TIME: "@ + creation_time + "\n"@
}

/// Writes the bundle manifest of `package` at `version`: its symbolic name
/// and name are the package name with `-` turned into `_`, the activator and
/// private library are the built `lib<name>.so`, and the creation time is
/// the text given.
pub fn manifest_text(package: &str, version: &str, creation_time: &str) -> (res: String)
    ensures
        res@ == manifest_spec(package@, version@, creation_time@),
{
    let n = underscore_name(package);
    let lib = lib_name("lib", ".so", package);
    let mut res = String::from_str("Manifest-Version: 1.0\nBundle-SymbolicName: ");
    res.append(n.as_str());
    res.append("\nBundle-Name: ");
    res.append(n.as_str());
    res.append("\nBundle-Version: ");
    res.append(version);
    res.append("\nBundle-Activator: ");
    res.append(lib.as_str());
    res.append("\nPrivate-Library: ");
    res.append(lib.as_str());
    res.append("\nCREATION-TIME: ");
    res.append(creation_time);
    res.append("\n");
    res
}

/// The bundle manifest of the package whose `Cargo.toml` reads `cargo_toml`.
pub open spec fn manifest_outcome(cargo_toml: Seq<char>, creation_time: Seq<char>) -> Result<Seq<char>, LookupError> {
    match package_name_of(cargo_toml) {
        Err(e) => Err(e),
        Ok(name) => match package_version_of(cargo_toml) {
            Err(e) => Err(e),
            Ok(version) => Ok(manifest_spec(name, version, creation_time)),
        },
    }
}

/// Generates `MANIFEST.MF` for the package whose `Cargo.toml` reads
/// `cargo_toml`, from its name and version and the creation time given.
/// The text must name the package and its version.
pub fn manifest(cargo_toml: &str, creation_time: &str) -> (res: String)
    requires
        package_name_of(cargo_toml@) is Ok,
        package_version_of(cargo_toml@) is Ok,
    ensures
        res@ == manifest_spec(
            package_name_of(cargo_toml@)->Ok_0,
            package_version_of(cargo_toml@)->Ok_0,
            creation_time@,
        ),
{
    let name = toml_lookup(cargo_toml, "package.name");
    let version = toml_lookup(cargo_toml, "package.version");
    manifest_text(name.as_str(), version.as_str(), creation_time)
}

/// Generates `MANIFEST.MF` for the package whose `Cargo.toml` reads
/// `cargo_toml`, or says why its name (looked up first) or its version
/// cannot be read.
pub fn try_manifest(cargo_toml: &str, creation_time: &str) -> (res: Result<String, LookupError>)
    ensures
        outcome_view(res) == manifest_outcome(cargo_toml@, creation_time@),
{
    match try_toml_lookup(cargo_toml, "package.name") {
        Ok(_) => {},
        Err(e) => return Err(e),
    }
    match try_toml_lookup(cargo_toml, "package.version") {
        Ok(_) => {},
        Err(e) => return Err(e),
    }
    Ok(manifest(cargo_toml, creation_time))
}

// ---------------------------------------------------------------------------
// The framework configuration

/// The text of `config.properties` that starts the bundle of `package`
/// together with the shell bundles.
pub open spec fn config_spec(package: Seq<char>) -> Seq<char> {
    "cosgi.auto.start.1=bundles/"@ + underscored(package)
        + ".zip bundles/shell_tui.zip bundles/shell.zip"@
}

/// Writes the framework configuration that starts the bundle of `package`,
/// then `shell_tui` and `shell`.
pub fn config_text(package: &str) -> (res: String)
    ensures
        res@ == config_spec(package@),
{
    let n = underscore_name(package);
    let mut res = String::from_str("cosgi.auto.start.1=bundles/");
    res.append(n.as_str());
    res.append(".zip bundles/shell_tui.zip bundles/shell.zip");
    res
}

/// The framework configuration for the package whose `Cargo.toml` reads
/// `cargo_toml`.
pub fn config_properties(cargo_toml: &str) -> (res: Result<String, LookupError>)
    ensures
        outcome_view(res) == with_name(package_name_of(cargo_toml@), |n: Seq<char>| config_spec(n)),
{
    match try_toml_lookup(cargo_toml, "package.name") {
        Ok(name) => Ok(config_text(name.as_str())),
        Err(e) => Err(e),
    }
}

// ---------------------------------------------------------------------------
// Deployment

/// Where the framework configuration is written, in the project directory.
pub open spec fn config_file_spec() -> Seq<char> {
    "deploy/config.properties"@
}

/// The path of the framework configuration, in the project directory.
pub fn config_file_path() -> (res: String)
    ensures
        res@ == config_file_spec(),
{
    String::from_str("deploy/config.properties")
}

/// The directory, in the project directory, that the bundles are deployed to.
pub open spec fn deployed_bundles_dir_spec() -> Seq<char> {
    "deploy/bundles"@
}

/// The directory, in the project directory, that the bundles are deployed to.
pub fn deployed_bundles_dir() -> (res: String)
    ensures
        res@ == deployed_bundles_dir_spec(),
{
    String::from_str("deploy/bundles")
}

/// The bundles that the configuration of `package` starts, in order, as
/// paths relative to the directory of the configuration file.
pub open spec fn started_bundles(package: Seq<char>) -> Seq<Seq<char>> {
    seq!["bundles/"@ + underscored(package) + ".zip"@, "bundles/shell_tui.zip"@, "bundles/shell.zip"@]
}

/// Where the bundle archive of `package` is deployed.
pub open spec fn deployed_bundle_spec(package: Seq<char>) -> Seq<char> {
    "deploy/bundles/"@ + underscored(package) + ".zip"@
}

/// The path the bundle archive of `package` is copied to.
pub fn deployed_bundle_path(package: &str) -> (res: String)
    ensures
        res@ == deployed_bundle_spec(package@),
{
    let n = underscore_name(package);
    let mut res = String::from_str("deploy/bundles/");
    res.append(n.as_str());
    res.append(".zip");
    res
}

/// The path the bundle archive is copied to, for the package whose
/// `Cargo.toml` reads `cargo_toml`.
pub fn bundle_destination(cargo_toml: &str) -> (res: Result<String, LookupError>)
    ensures
        outcome_view(res) == with_name(
            package_name_of(cargo_toml@),
            |n: Seq<char>| deployed_bundle_spec(n),
        ),
{
    match try_toml_lookup(cargo_toml, "package.name") {
        Ok(name) => Ok(deployed_bundle_path(name.as_str())),
        Err(e) => Err(e),
    }
}

/// One file to move: copy `from` to `to`, then remove `from`.
pub struct FileMove {
    pub from: String,
    pub to: String,
}

impl View for FileMove {
    type V = (Seq<char>, Seq<char>);

    open spec fn view(&self) -> (Seq<char>, Seq<char>) {
        (self.from@, self.to@)
    }
}

/// One file to copy: from `from` to `to`.
pub struct FileCopy {
    pub from: String,
    pub to: String,
}

impl View for FileCopy {
    type V = (Seq<char>, Seq<char>);

    open spec fn view(&self) -> (Seq<char>, Seq<char>) {
        (self.from@, self.to@)
    }
}

/// The directory that holds the bundles shipped with Celix under `celix_dir`.
pub open spec fn shipped_bundles_dir(celix_dir: Seq<char>) -> Seq<char> {
    celix_dir + "/share/celix/bundles/"@
}

/// The copies that put the shell bundles shipped with Celix (installed under
/// `celix_dir`) into the deployment: `shell.zip`, then `shell_tui.zip`.
pub open spec fn base_bundle_copies_spec(celix_dir: Seq<char>) -> Seq<(Seq<char>, Seq<char>)> {
    let dir = shipped_bundles_dir(celix_dir);
    seq![
        (dir + "shell.zip"@, "deploy/bundles/shell.zip"@),
        (dir + "shell_tui.zip"@, "deploy/bundles/shell_tui.zip"@),
    ]
}

/// The copies of the shell bundles shipped with Celix, installed under
/// `celix_dir`, into `deploy/bundles`.
pub fn base_bundle_copies(celix_dir: &str) -> (res: Vec<FileCopy>)
    ensures
        res@.map_values(|c: FileCopy| c@) == base_bundle_copies_spec(celix_dir@),
{
    let mut dir = String::from_str(celix_dir);
    dir.append("/share/celix/bundles/");
    let mut shell = dir.clone();
    shell.append("shell.zip");
    let mut shell_tui = dir.clone();
    shell_tui.append("shell_tui.zip");
    let mut res: Vec<FileCopy> = Vec::new();
    res.push(FileCopy { from: shell, to: String::from_str("deploy/bundles/shell.zip") });
    res.push(
        FileCopy { from: shell_tui, to: String::from_str("deploy/bundles/shell_tui.zip") },
    );
    assert(res@.map_values(|c: FileCopy| c@) =~= base_bundle_copies_spec(celix_dir@));
    res
}

// ---------------------------------------------------------------------------
// Packing the bundle

/// The steps that pack the built library into a bundle archive and deploy
/// it, all under a scratch directory made by `mktemp -d`:
/// move the library in, make `META-INF`, write the manifest there, run
/// `jar` with `archive_args` inside the scratch directory, copy the archive
/// out into the deployment, and remove the scratch directory.
pub struct BundlePlan {
    /// The scratch directory, ending in `/`.
    pub scratch_dir: String,
    /// The built library, moved into the scratch directory.
    pub library: FileMove,
    /// The `META-INF` directory to make in the scratch directory.
    pub meta_inf_dir: String,
    /// Where the manifest is written.
    pub manifest_path: String,
    /// The manifest.
    pub manifest: String,
    /// The arguments of `jar`, run inside the scratch directory.
    pub archive_args: Vec<String>,
    /// The archive `jar` makes, copied into the deployment.
    pub archive: FileCopy,
}

/// The views of a list of strings.
pub open spec fn strings_view(v: Seq<String>) -> Seq<Seq<char>> {
    v.map_values(|s: String| s@)
}

/// `plan` packs the bundle of `package` at `version`, in the scratch
/// directory named by `mktemp_output`, with a manifest created at
/// `creation_time`.
pub open spec fn plan_fits(
    plan: BundlePlan,
    package: Seq<char>,
    version: Seq<char>,
    mktemp_output: Seq<char>,
    creation_time: Seq<char>,
) -> bool {
    let tmp = temp_dir_spec(mktemp_output);
    &&& plan.scratch_dir@ == tmp
    &&& plan.library@ == (
        lib_file_name("target/release/lib"@, ".so"@, package),
        lib_file_name(tmp + "lib"@, ".so"@, package),
    )
    &&& plan.meta_inf_dir@ == tmp + "META-INF"@
    &&& plan.manifest_path@ == tmp + "META-INF/MANIFEST.MF"@
    &&& plan.manifest@ == manifest_spec(package, version, creation_time)
    &&& strings_view(plan.archive_args@) == seq![
        "cfm"@,
        lib_file_name(""@, ".zip"@, package),
        "META-INF/MANIFEST.MF"@,
        lib_file_name("lib"@, ".so"@, package),
    ]
    &&& plan.archive@ == (lib_file_name(tmp, ".zip"@, package), deployed_bundle_spec(package))
}

/// Plans the packing of the bundle of `package` at `version`, in the
/// scratch directory named by `mktemp_output`, with a manifest created at
/// `creation_time`.
pub fn plan_for_package(package: &str, version: &str, mktemp_output: &str, creation_time: &str) -> (res: BundlePlan)
    ensures
        plan_fits(res, package@, version@, mktemp_output@, creation_time@),
{
    let tmp = temp_dir(mktemp_output);
    let mut tmp_lib = tmp.clone();
    tmp_lib.append("lib");
    let library = FileMove {
        from: lib_name("target/release/lib", ".so", package),
        to: lib_name(tmp_lib.as_str(), ".so", package),
    };
    let mut meta_inf_dir = tmp.clone();
    meta_inf_dir.append("META-INF");
    let mut manifest_path = tmp.clone();
    manifest_path.append("META-INF/MANIFEST.MF");
    let manifest = manifest_text(package, version, creation_time);
    let mut archive_args: Vec<String> = Vec::new();
    archive_args.push(String::from_str("cfm"));
    archive_args.push(lib_name("", ".zip", package));
    archive_args.push(String::from_str("META-INF/MANIFEST.MF"));
    archive_args.push(lib_name("lib", ".so", package));
    let archive = FileCopy {
        from: lib_name(tmp.as_str(), ".zip", package),
        to: deployed_bundle_path(package),
    };
    let plan = BundlePlan {
        scratch_dir: tmp,
        library,
        meta_inf_dir,
        manifest_path,
        manifest,
        archive_args,
        archive,
    };
    assert(strings_view(plan.archive_args@) =~= seq![
        "cfm"@,
        lib_file_name(""@, ".zip"@, package@),
        "META-INF/MANIFEST.MF"@,
        lib_file_name("lib"@, ".so"@, package@),
    ]);
    plan
}

/// Plans the packing of the bundle of the package whose `Cargo.toml` reads
/// `cargo_toml`, in the scratch directory named by `mktemp_output`, with a
/// manifest created at `creation_time`. Fails where the package name or
/// version cannot be read, the name first.
pub fn bundle_plan(cargo_toml: &str, mktemp_output: &str, creation_time: &str) -> (res: Result<BundlePlan, LookupError>)
    ensures
        res is Ok <==> manifest_outcome(cargo_toml@, creation_time@) is Ok,
        res matches Err(e) ==> manifest_outcome(cargo_toml@, creation_time@) == Err::<Seq<char>, LookupError>(e),
        res matches Ok(plan) ==> plan_fits(
            plan,
            package_name_of(cargo_toml@)->Ok_0,
            package_version_of(cargo_toml@)->Ok_0,
            mktemp_output@,
            creation_time@,
        ),
{
    let name = match try_toml_lookup(cargo_toml, "package.name") {
        Ok(name) => name,
        Err(e) => return Err(e),
    };
    let version = match try_toml_lookup(cargo_toml, "package.version") {
        Ok(version) => version,
        Err(e) => return Err(e),
    };
    Ok(plan_for_package(name.as_str(), version.as_str(), mktemp_output, creation_time))
}

} // verus!

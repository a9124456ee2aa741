//! Properties that hold of the naming and packaging rules as a whole.

use vstd::prelude::*;

use crate::bundle::{
    BundlePlan, base_bundle_copies_spec, config_file_spec, config_spec, deployed_bundle_spec,
    deployed_bundles_dir_spec, lib_file_name, manifest_spec, plan_fits, started_bundles,
    strings_view,
};
use crate::locate::{cargo_toml_path_spec, is_root_record, root_prefix, temp_dir_spec};
use crate::text::{
    is_first_index, is_path_noise, is_white_space, lemma_first_index_unique, second_field,
    trimmed_end, underscored, without_path_noise,
};

verus! {

/// Turning `-` into `_` keeps the length, leaves no `-`, and doing it twice
/// gives the same name as doing it once.
pub proof fn law_underscored_name(name: Seq<char>)
    ensures
        underscored(name).len() == name.len(),
        !underscored(name).contains('-'),
        underscored(underscored(name)) == underscored(name),
{
    assert(underscored(underscored(name)) =~= underscored(name));
}

/// The library file name is `pre`, then the package name with no `-` left
/// in it, then `ext`; placing the prefix under a directory places the whole
/// name under it.
pub proof fn law_lib_file_name(dir: Seq<char>, pre: Seq<char>, ext: Seq<char>, package: Seq<char>)
    ensures
        lib_file_name(pre, ext, package).len() == pre.len() + package.len() + ext.len(),
        lib_file_name(pre, ext, package).take(pre.len() as int) == pre,
        lib_file_name(pre, ext, package).skip((pre.len() + package.len()) as int) == ext,
        !lib_file_name(pre, ext, package).subrange(pre.len() as int, (pre.len() + package.len()) as int).contains('-'),
        lib_file_name(dir + pre, ext, package) == dir + lib_file_name(pre, ext, package),
{
    law_underscored_name(package);
    let l = lib_file_name(pre, ext, package);
    assert(l.take(pre.len() as int) =~= pre);
    assert(l.skip((pre.len() + package.len()) as int) =~= ext);
    assert(l.subrange(pre.len() as int, (pre.len() + package.len()) as int) =~= underscored(package));
    assert(lib_file_name(dir + pre, ext, package) =~= dir + l);
}

/// The bundle manifest names, as activator and as private library, the
/// library file `lib<name>.so` that goes into the bundle archive.
pub proof fn law_manifest_names_packed_library(package: Seq<char>, version: Seq<char>, creation_time: Seq<char>)
    ensures
        ({
            let lib = lib_file_name("lib"@, ".so"@, package);
            let m = manifest_spec(package, version, creation_time);
            let head = "Manifest-Version: 1.0\nBundle-SymbolicName: "@ + underscored(package)
                + "\nBundle-Name: "@ + underscored(package) + "\nBundle-Version: "@ + version
                + "\nBundle-Activator: "@;
            &&& m.subrange(head.len() as int, (head.len() + lib.len()) as int) == lib
            &&& m.take(head.len() as int) == head
        }),
{
    let lib = lib_file_name("lib"@, ".so"@, package);
    let m = manifest_spec(package, version, creation_time);
    let head = "Manifest-Version: 1.0\nBundle-SymbolicName: "@ + underscored(package)
        + "\nBundle-Name: "@ + underscored(package) + "\nBundle-Version: "@ + version
        + "\nBundle-Activator: "@;
    assert(m.subrange(head.len() as int, (head.len() + lib.len()) as int) =~= lib);
    assert(m.take(head.len() as int) =~= head);
}

/// The archive that is deployed under `deploy/bundles` is the one the
/// bundle is packed into (`<name>.zip`). The configuration file lies in
/// `deploy/`, and each bundle it starts (the package's own, then
/// `shell_tui`, then `shell`), taken relative to that directory, is a file
/// that the deployment puts there: the packed archive and the two shell
/// bundles copied from the Celix installation, all in `deploy/bundles`.
pub proof fn law_config_starts_deployed_bundles(package: Seq<char>, celix_dir: Seq<char>)
    ensures
        deployed_bundle_spec(package) == "deploy/bundles/"@ + lib_file_name(""@, ".zip"@, package),
        config_file_spec() == "deploy/"@ + "config.properties"@,
        ({
            let b = started_bundles(package);
            let copies = base_bundle_copies_spec(celix_dir);
            &&& config_spec(package) == "cosgi.auto.start.1="@ + b[0] + " "@ + b[1] + " "@ + b[2]
            &&& "deploy/"@ + b[0] == deployed_bundle_spec(package)
            &&& "deploy/"@ + b[1] == copies[1].1
            &&& "deploy/"@ + b[2] == copies[0].1
            &&& deployed_bundles_dir_spec() + "/"@ + lib_file_name(""@, ".zip"@, package) == deployed_bundle_spec(package)
            &&& deployed_bundles_dir_spec() + "/"@ + "shell_tui.zip"@ == copies[1].1
            &&& deployed_bundles_dir_spec() + "/"@ + "shell.zip"@ == copies[0].1
        }),
{
    reveal_strlit("");
    reveal_strlit(".zip");
    reveal_strlit("/");
    reveal_strlit("deploy/");
    reveal_strlit("deploy/bundles");
    reveal_strlit("deploy/bundles/");
    reveal_strlit("bundles/");
    reveal_strlit("config.properties");
    reveal_strlit("deploy/config.properties");
    reveal_strlit("bundles/shell.zip");
    reveal_strlit("bundles/shell_tui.zip");
    reveal_strlit("deploy/bundles/shell.zip");
    reveal_strlit("deploy/bundles/shell_tui.zip");
    reveal_strlit("shell.zip");
    reveal_strlit("shell_tui.zip");
    reveal_strlit("cosgi.auto.start.1=");
    reveal_strlit(" ");
    reveal_strlit("cosgi.auto.start.1=bundles/");
    reveal_strlit(".zip bundles/shell_tui.zip bundles/shell.zip");
    let u = underscored(package);
    let b = started_bundles(package);
    let copies = base_bundle_copies_spec(celix_dir);
    assert(""@ + u =~= u);
    assert(deployed_bundle_spec(package) =~= "deploy/bundles/"@ + lib_file_name(""@, ".zip"@, package));
    assert(config_file_spec() =~= "deploy/"@ + "config.properties"@);
    assert(config_spec(package) =~= "cosgi.auto.start.1="@ + b[0] + " "@ + b[1] + " "@ + b[2]);
    assert("deploy/"@ + b[0] =~= deployed_bundle_spec(package));
    assert("deploy/"@ + b[1] =~= copies[1].1);
    assert("deploy/"@ + b[2] =~= copies[0].1);
    assert(deployed_bundles_dir_spec() + "/"@ + lib_file_name(""@, ".zip"@, package) =~= deployed_bundle_spec(package));
    assert(deployed_bundles_dir_spec() + "/"@ + "shell_tui.zip"@ =~= copies[1].1);
    assert(deployed_bundles_dir_spec() + "/"@ + "shell.zip"@ =~= copies[0].1);
}

/// The directory read from `mktemp` ends in `/`, has no white space just
/// before it, and does not change when the output carries more white space
/// at its end.
pub proof fn law_temp_dir(output: Seq<char>, trailing: Seq<char>)
    requires
        forall|i: int| 0 <= i < trailing.len() ==> is_white_space(#[trigger] trailing[i]),
    ensures
        temp_dir_spec(output).last() == '/',
        temp_dir_spec(output).len() >= 2 ==> !is_white_space(temp_dir_spec(output)[temp_dir_spec(output).len() - 2]),
        temp_dir_spec(output + trailing) == temp_dir_spec(output),
    decreases trailing.len(),
{
    reveal_strlit("/");
    lemma_trimmed_end_shape(output);
    if trailing.len() > 0 {
        let shorter = trailing.drop_last();
        assert((output + trailing).drop_last() =~= output + shorter);
        assert((output + trailing).last() == trailing.last());
        law_temp_dir(output, shorter);
    } else {
        assert(output + trailing =~= output);
    }
}

/// `trimmed_end(s)` is a prefix of `s` that does not end in white space.
proof fn lemma_trimmed_end_shape(s: Seq<char>)
    ensures
        trimmed_end(s).len() <= s.len(),
        trimmed_end(s) == s.take(trimmed_end(s).len() as int),
        trimmed_end(s).len() > 0 ==> !is_white_space(trimmed_end(s).last()),
        forall|i: int| trimmed_end(s).len() <= i < s.len() ==> is_white_space(#[trigger] s[i]),
    decreases s.len(),
{
    if s.len() > 0 && is_white_space(s.last()) {
        lemma_trimmed_end_shape(s.drop_last());
        let t = trimmed_end(s.drop_last());
        assert(s.drop_last().take(t.len() as int) =~= s.take(t.len() as int));
        assert forall|i: int| t.len() <= i < s.len() implies is_white_space(#[trigger] s[i]) by {
            if i < s.len() - 1 {
                assert(s.drop_last()[i] == s[i]);
            }
        }
    } else {
        assert(s.take(s.len() as int) =~= s);
    }
}

/// Turning a package name into an identifier changes each `-` into `_` and
/// keeps every other character, in place.
pub proof fn law_underscored_changes_only_dashes(name: Seq<char>)
    ensures
        underscored(name).len() == name.len(),
        forall|i: int|
            0 <= i < name.len() ==> #[trigger] underscored(name)[i] == (if name[i] == '-' {
                '_'
            } else {
                name[i]
            }),
{
}

/// The library file name is `pre`, then the package name with each `-`
/// changed into `_` and every other character kept, then `ext`.
pub proof fn law_lib_file_name_keeps_the_name(pre: Seq<char>, ext: Seq<char>, package: Seq<char>)
    ensures
        lib_file_name(pre, ext, package) == pre + Seq::new(
            package.len(),
            |i: int| if package[i] == '-' { '_' } else { package[i] },
        ) + ext,
{
    let u = Seq::new(package.len(), |i: int| if package[i] == '-' { '_' } else { package[i] });
    assert(underscored(package) =~= u);
}

/// The manifest, line by line: the symbolic name and the name are the
/// package name with each `-` as `_`; the version is the one given; the
/// activator and the private library are both `lib<that name>.so`; the
/// creation time is the one given.
pub proof fn law_manifest_lines(package: Seq<char>, version: Seq<char>, creation_time: Seq<char>)
    ensures
        ({
            let u = Seq::new(package.len(), |i: int| if package[i] == '-' { '_' } else { package[i] });
            let lib = "lib"@ + u + ".so"@;
            manifest_spec(package, version, creation_time) == "Manifest-Version: 1.0\nBundle-SymbolicName: "@
                + u + "\nBundle-Name: "@ + u + "\nBundle-Version: "@ + version
                + "\nBundle-Activator: "@ + lib + "\nPrivate-Library: "@ + lib
                + "\nCREATION-TIME: "@ + creation_time + "\n"@
        }),
{
    let u = Seq::new(package.len(), |i: int| if package[i] == '-' { '_' } else { package[i] });
    assert(underscored(package) =~= u);
}

/// Trimming removes exactly the white space at the end: what is kept is a
/// prefix of `s` that does not end in white space, everything after it is
/// white space, and `s` is kept whole where it does not end in white space.
pub proof fn law_trimmed_end_removes_only_trailing_white_space(s: Seq<char>)
    ensures
        trimmed_end(s).len() <= s.len(),
        trimmed_end(s) == s.take(trimmed_end(s).len() as int),
        forall|i: int| trimmed_end(s).len() <= i < s.len() ==> is_white_space(#[trigger] s[i]),
        trimmed_end(s).len() > 0 ==> !is_white_space(trimmed_end(s).last()),
        (s.len() == 0 || !is_white_space(s.last())) ==> trimmed_end(s) == s,
{
    lemma_trimmed_end_shape(s);
}

/// The scratch directory read from `mktemp` is the whole output, up to the
/// white space at its end, then `/`: whatever its length, an output that
/// does not end in white space is kept whole.
pub proof fn law_temp_dir_is_whole_output(output: Seq<char>)
    ensures
        ({
            let d = temp_dir_spec(output);
            &&& d.len() >= 1
            &&& d.last() == '/'
            &&& d.len() - 1 <= output.len()
            &&& d.drop_last() == output.take(d.len() - 1)
            &&& forall|i: int| d.len() - 1 <= i < output.len() ==> is_white_space(#[trigger] output[i])
            &&& d.len() >= 2 ==> !is_white_space(d[d.len() - 2])
            &&& (output.len() == 0 || !is_white_space(output.last())) ==> d == output.push('/')
        }),
{
    reveal_strlit("/");
    lemma_trimmed_end_shape(output);
    let t = trimmed_end(output);
    let d = temp_dir_spec(output);
    assert(d =~= t.push('/'));
    assert(d.drop_last() =~= t);
    if output.len() == 0 || !is_white_space(output.last()) {
        assert(t == output);
    }
}

/// Every step of a bundle plan works in the directory that `mktemp` made:
/// the scratch directory is the whole `mktemp` output up to the white space
/// at its end, then `/`, and the library is moved to, and the archive is
/// copied from, that directory, under the package name with each `-` as `_`.
pub proof fn law_bundle_plan_in_mktemp_dir(
    plan: BundlePlan,
    package: Seq<char>,
    version: Seq<char>,
    mktemp_output: Seq<char>,
    creation_time: Seq<char>,
)
    requires
        plan_fits(plan, package, version, mktemp_output, creation_time),
    ensures
        ({
            let d = plan.scratch_dir@;
            let u = Seq::new(package.len(), |i: int| if package[i] == '-' { '_' } else { package[i] });
            &&& d.len() >= 1
            &&& d.last() == '/'
            &&& d.drop_last() == mktemp_output.take(d.len() - 1)
            &&& forall|i: int| d.len() - 1 <= i < mktemp_output.len() ==> is_white_space(#[trigger] mktemp_output[i])
            &&& (mktemp_output.len() == 0 || !is_white_space(mktemp_output.last())) ==> d == mktemp_output.push('/')
            &&& plan.library@.1 == d + "lib"@ + u + ".so"@
            &&& plan.archive@.0 == d + u + ".zip"@
        }),
{
    law_temp_dir_is_whole_output(mktemp_output);
    let d = plan.scratch_dir@;
    let u = Seq::new(package.len(), |i: int| if package[i] == '-' { '_' } else { package[i] });
    assert(underscored(package) =~= u);
    assert(plan.library@.1 =~= d + "lib"@ + u + ".so"@);
    assert(plan.archive@.0 =~= d + u + ".zip"@);
}

/// The shell bundles are copied from the Celix installation given, whatever
/// it is: each source lies under `celix_dir`, in `share/celix/bundles`.
pub proof fn law_base_bundles_from_installation(celix_dir: Seq<char>)
    ensures
        ({
            let copies = base_bundle_copies_spec(celix_dir);
            &&& copies.len() == 2
            &&& copies[0].0 == celix_dir + "/share/celix/bundles/shell.zip"@
            &&& copies[1].0 == celix_dir + "/share/celix/bundles/shell_tui.zip"@
            &&& copies[0].0.take(celix_dir.len() as int) == celix_dir
            &&& copies[1].0.take(celix_dir.len() as int) == celix_dir
        }),
{
    reveal_strlit("/share/celix/bundles/");
    reveal_strlit("shell.zip");
    reveal_strlit("shell_tui.zip");
    reveal_strlit("/share/celix/bundles/shell.zip");
    reveal_strlit("/share/celix/bundles/shell_tui.zip");
    let copies = base_bundle_copies_spec(celix_dir);
    assert(copies[0].0 =~= celix_dir + "/share/celix/bundles/shell.zip"@);
    assert(copies[1].0 =~= celix_dir + "/share/celix/bundles/shell_tui.zip"@);
    assert(copies[0].0.take(celix_dir.len() as int) =~= celix_dir);
    assert(copies[1].0.take(celix_dir.len() as int) =~= celix_dir);
}

/// Whatever the path that `cargo locate-project` reports, with whatever
/// characters in it (`:` among them), it is the path read back.
pub proof fn law_cargo_toml_path_reports_whole_path(path: Seq<char>)
    ensures
        cargo_toml_path_spec("{\"root\":\""@ + path + "\"}\n"@) == path,
{
    reveal_strlit("{\"root\":\"");
    reveal_strlit("\"}\n");
    let s = "{\"root\":\""@ + path + "\"}\n"@;
    assert(s.skip(s.len() - 3) =~= seq!['"', '}', '\n']);
    assert(s.take(9) =~= root_prefix());
    assert(is_root_record(s));
    assert(s.subrange(9, s.len() - 3) =~= path);
}

/// In a bundle plan, `jar` (run in the scratch directory) packs the library
/// that was copied into the scratch directory and the manifest written into
/// its `META-INF` directory, and the archive it makes is the file copied
/// into the deployment, under the same name.
pub proof fn law_bundle_plan_is_consistent(
    plan: BundlePlan,
    package: Seq<char>,
    version: Seq<char>,
    mktemp_output: Seq<char>,
    creation_time: Seq<char>,
)
    requires
        plan_fits(plan, package, version, mktemp_output, creation_time),
    ensures
        ({
            let args = strings_view(plan.archive_args@);
            let dir = plan.scratch_dir@;
            &&& args.len() == 4
            &&& plan.library@.1 == dir + args[3]
            &&& plan.manifest_path@ == dir + args[2]
            &&& plan.manifest_path@ == plan.meta_inf_dir@ + "/MANIFEST.MF"@
            &&& plan.archive@.0 == dir + args[1]
            &&& plan.archive@.1 == "deploy/bundles/"@ + args[1]
        }),
{
    let dir = plan.scratch_dir@;
    law_lib_file_name(dir, "lib"@, ".so"@, package);
    law_lib_file_name(dir, ""@, ".zip"@, package);
    reveal_strlit("");
    reveal_strlit("META-INF");
    reveal_strlit("/MANIFEST.MF");
    reveal_strlit("META-INF/MANIFEST.MF");
    assert(dir + ""@ =~= dir);
    assert("META-INF/MANIFEST.MF"@ =~= "META-INF"@ + "/MANIFEST.MF"@);
    assert(dir + "META-INF/MANIFEST.MF"@ =~= (dir + "META-INF"@) + "/MANIFEST.MF"@);
    law_config_starts_deployed_bundles(package, seq![]);
}

/// Cleaning a path removes exactly the double quotes, closing braces and
/// newlines: the result holds none of them, and a text without them is
/// kept whole.
pub proof fn law_path_cleaning(s: Seq<char>)
    ensures
        forall|i: int| 0 <= i < without_path_noise(s).len() ==> !is_path_noise(#[trigger] without_path_noise(s)[i]),
        (forall|i: int| 0 <= i < s.len() ==> !is_path_noise(#[trigger] s[i])) ==> without_path_noise(s) == s,
    decreases s.len(),
{
    if s.len() > 0 {
        law_path_cleaning(s.drop_last());
        let r = without_path_noise(s.drop_last());
        assert forall|i: int| 0 <= i < without_path_noise(s).len() implies !is_path_noise(#[trigger] without_path_noise(s)[i]) by {
            if i < r.len() {
                assert(without_path_noise(s)[i] == r[i]);
            }
        }
        if forall|i: int| 0 <= i < s.len() ==> !is_path_noise(#[trigger] s[i]) {
            assert forall|i: int| 0 <= i < s.drop_last().len() implies !is_path_noise(#[trigger] s.drop_last()[i]) by {
                assert(s.drop_last()[i] == s[i]);
            }
            assert(!is_path_noise(s[s.len() - 1]));
            assert(s.drop_last().push(s.last()) =~= s);
        }
    }
}

/// The second field of `a:b` or `a:b:c`, where `a` and `b` hold no `:`,
/// is `b`.
pub proof fn law_second_field(a: Seq<char>, b: Seq<char>, c: Seq<char>, more: bool)
    requires
        !a.contains(':'),
        !b.contains(':'),
    ensures
        second_field(a + seq![':'] + b + (if more { seq![':'] + c } else { Seq::empty() }), ':') == b,
{
    let tail: Seq<char> = if more { seq![':'] + c } else { Seq::empty() };
    let s = a + seq![':'] + b + tail;
    assert forall|j: int| 0 <= j < a.len() implies s[j] != ':' by {
        assert(s[j] == a[j]);
        if a[j] == ':' {
            assert(a.contains(':'));
        }
    }
    assert(s[a.len() as int] == ':');
    assert(is_first_index(s, ':', a.len() as int));
    lemma_first_index_unique(s, ':', a.len() as int);
    let rest = s.skip(a.len() + 1 as int);
    assert(rest =~= b + tail);
    assert forall|j: int| 0 <= j < b.len() implies rest[j] != ':' by {
        assert(rest[j] == b[j]);
        if b[j] == ':' {
            assert(b.contains(':'));
        }
    }
    if more {
        assert(rest[b.len() as int] == ':');
    }
    assert(is_first_index(rest, ':', b.len() as int));
    lemma_first_index_unique(rest, ':', b.len() as int);
    assert(rest.take(b.len() as int) =~= b);
}

} // verus!

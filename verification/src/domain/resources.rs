//! Resource files found in the configuration directories.
use vstd::prelude::*;
use crate::domain::integration::opt_view;
use crate::text::{
    chars_of, concat, concat3, lemma_replace_all_keeps, lemma_replace_all_removes, lowercase_of,
    matches_at, owned, replace_all, replace_chars, starts_with, string_chars, string_from_chars,
    to_lowercase,
};

verus! {

/// The path that `Path::join` makes of a directory and a relative name, as text.
pub uninterp spec fn joined_path(dir: Seq<char>, name: Seq<char>) -> Seq<char>;

/// Calls `Path::join` and turns the result into text; the result is named
/// `joined_path` of the arguments.
#[verifier::external_body]
fn path_join(dir: &String, name: &str) -> (r: String)
    ensures
        r@ == joined_path(dir@, name@),
{
    std::path::Path::new(dir).join(name).to_string_lossy().into_owned()
}

/// The file names of the resources.
#[derive(Debug)]
pub struct ResourceNames {
    log_toml: String,
    settings_json: String,
    data_json: String,
    icons_dir: String,
}

impl ResourceNames {
    /// The logging configuration file name.
    pub closed spec fn log_toml_spec(&self) -> Seq<char> {
        self.log_toml@
    }

    /// The settings file name.
    pub closed spec fn settings_json_spec(&self) -> Seq<char> {
        self.settings_json@
    }

    /// The data file name.
    pub closed spec fn data_json_spec(&self) -> Seq<char> {
        self.data_json@
    }

    /// The icons directory name.
    pub closed spec fn icons_dir_spec(&self) -> Seq<char> {
        self.icons_dir@
    }

    /// The logging configuration file name.
    pub fn log_toml(&self) -> (r: String)
        ensures
            r@ == self.log_toml_spec(),
    {
        self.log_toml.clone()
    }

    /// The settings file name.
    pub fn settings_json(&self) -> (r: String)
        ensures
            r@ == self.settings_json_spec(),
    {
        self.settings_json.clone()
    }

    /// The data file name.
    pub fn data_json(&self) -> (r: String)
        ensures
            r@ == self.data_json_spec(),
    {
        self.data_json.clone()
    }

    /// The icons directory name.
    pub fn icons_dir(&self) -> (r: String)
        ensures
            r@ == self.icons_dir_spec(),
    {
        self.icons_dir.clone()
    }
}

impl Clone for ResourceNames {
    fn clone(&self) -> (r: Self)
        ensures
            r.log_toml_spec() == self.log_toml_spec(),
            r.settings_json_spec() == self.settings_json_spec(),
            r.data_json_spec() == self.data_json_spec(),
            r.icons_dir_spec() == self.icons_dir_spec(),
    {
        ResourceNames {
            log_toml: self.log_toml.clone(),
            settings_json: self.settings_json.clone(),
            data_json: self.data_json.clone(),
            icons_dir: self.icons_dir.clone(),
        }
    }
}

impl Default for ResourceNames {
    fn default() -> (r: Self)
        ensures
            r.log_toml_spec() == "log.toml"@,
            r.settings_json_spec() == "settings.json"@,
            r.data_json_spec() == "data.json"@,
            r.icons_dir_spec() == "icons"@,
    {
        ResourceNames {
            log_toml: owned("log.toml"),
            settings_json: owned("settings.json"),
            data_json: owned("data.json"),
            icons_dir: owned("icons"),
        }
    }
}

/// Resource files looked up in a list of configuration directories, the first
/// directory that holds a file winning.
#[derive(Debug)]
pub struct Resources {
    config_paths: Vec<String>,
    resource_names: ResourceNames,
}

/// The views of the directories.
pub open spec fn dirs_view(v: Seq<String>) -> Seq<Seq<char>> {
    v.map_values(|s: String| s@)
}

impl Clone for Resources {
    fn clone(&self) -> (r: Self)
        ensures
            r.dirs() == self.dirs(),
            r.names_spec() == self.names_spec(),
    {
        let mut paths: Vec<String> = Vec::new();
        let mut i: usize = 0;
        while i < self.config_paths.len()
            invariant
                i <= self.config_paths@.len(),
                paths@.len() == i,
                forall|k: int| 0 <= k < i ==> #[trigger] paths@[k]@ == self.config_paths@[k]@,
            decreases self.config_paths.len() - i,
        {
            paths.push(self.config_paths[i].clone());
            i = i + 1;
        }
        assert(dirs_view(paths@) =~= dirs_view(self.config_paths@));
        Resources { config_paths: paths, resource_names: self.resource_names.clone() }
    }
}

/// The file names of a set of resources, as one tuple: log, settings, data, icons.
pub struct NamesV {
    pub log_toml: Seq<char>,
    pub settings_json: Seq<char>,
    pub data_json: Seq<char>,
    pub icons_dir: Seq<char>,
}

/// The path under which an icon file is looked up: "<icons dir>/<file>".
pub open spec fn icon_rel(icons_dir: Seq<char>, icon_file: Seq<char>) -> Seq<char> {
    icons_dir + "/"@ + icon_file
}

/// The path of `name` in the first directory, from index `k` on, whose existence
/// check in `found` came back true; `None` when no checked directory holds it.
pub open spec fn first_found_from(
    dirs: Seq<Seq<char>>,
    name: Seq<char>,
    found: Seq<bool>,
    k: int,
) -> Option<Seq<char>>
    decreases dirs.len() - k,
{
    if k < 0 || k >= dirs.len() || k >= found.len() {
        None
    } else if found[k] {
        Some(joined_path(dirs[k], name))
    } else {
        first_found_from(dirs, name, found, k + 1)
    }
}

/// The path of `name` in the first directory whose existence check in `found`
/// came back true (`found[i]` answers for `dirs[i]`); `None` when none did.
pub open spec fn first_found(dirs: Seq<Seq<char>>, name: Seq<char>, found: Seq<bool>) -> Option<
    Seq<char>,
> {
    first_found_from(dirs, name, found, 0)
}

/// The path that the lookup finds for `name`, or `name` in the first directory
/// when none of the existence checks in `found` came back true.
pub open spec fn found_or_first(dirs: Seq<Seq<char>>, name: Seq<char>, found: Seq<bool>) -> Seq<char> {
    match first_found(dirs, name, found) {
        Some(p) => p,
        None => joined_path(dirs[0], name),
    }
}

/// A path that the lookup finds is `name` in one of the directories.
proof fn lemma_first_found_in_dirs(dirs: Seq<Seq<char>>, name: Seq<char>, found: Seq<bool>, k: int)
    requires
        0 <= k,
    ensures
        match first_found_from(dirs, name, found, k) {
            Some(p) => exists|i: int| k <= i < dirs.len() && p == joined_path(#[trigger] dirs[i], name),
            None => true,
        },
    decreases dirs.len() - k,
{
    if k < dirs.len() && k < found.len() && !found[k] {
        lemma_first_found_in_dirs(dirs, name, found, k + 1);
    }
}

impl Resources {
    /// The configuration directories, in lookup order.
    pub closed spec fn dirs(&self) -> Seq<Seq<char>> {
        dirs_view(self.config_paths@)
    }

    /// The resource file names.
    pub closed spec fn names_spec(&self) -> NamesV {
        NamesV {
            log_toml: self.resource_names.log_toml_spec(),
            settings_json: self.resource_names.settings_json_spec(),
            data_json: self.resource_names.data_json_spec(),
            icons_dir: self.resource_names.icons_dir_spec(),
        }
    }

    /// Whether there is a configuration directory, where new files go.
    pub fn has_dirs(&self) -> (r: bool)
        ensures
            r == (self.dirs().len() > 0),
    {
        self.config_paths.len() > 0
    }

    /// Resources in the given directories, with the default file names.
    pub fn new(config_paths: Vec<String>) -> (r: Self)
        ensures
            r.dirs() == dirs_view(config_paths@),
            r.names_spec() == (NamesV {
                log_toml: "log.toml"@,
                settings_json: "settings.json"@,
                data_json: "data.json"@,
                icons_dir: "icons"@,
            }),
    {
        Resources { config_paths, resource_names: ResourceNames::default() }
    }

    /// The resource file names.
    pub fn names(&self) -> (r: ResourceNames)
        ensures
            r.log_toml_spec() == self.names_spec().log_toml,
            r.settings_json_spec() == self.names_spec().settings_json,
            r.data_json_spec() == self.names_spec().data_json,
            r.icons_dir_spec() == self.names_spec().icons_dir,
    {
        self.resource_names.clone()
    }

    /// The paths under which `file_name` is looked up, one per directory, in lookup
    /// order: the file name joined to each directory. The existence check of the
    /// `i`-th path is what `found[i]` answers in the lookups below.
    pub fn candidate_paths(&self, file_name: &str) -> (r: Vec<String>)
        ensures
            r@.len() == self.dirs().len(),
            forall|i: int| 0 <= i < r@.len() ==> (#[trigger] r@[i])@ == joined_path(self.dirs()[i], file_name@),
    {
        let mut out: Vec<String> = Vec::new();
        let mut i: usize = 0;
        while i < self.config_paths.len()
            invariant
                i <= self.config_paths@.len(),
                self.dirs().len() == self.config_paths@.len(),
                out@.len() == i,
                forall|k: int| 0 <= k < i ==> (#[trigger] out@[k])@ == joined_path(self.dirs()[k], file_name@),
            decreases self.config_paths.len() - i,
        {
            assert(self.dirs()[i as int] == self.config_paths@[i as int]@);
            out.push(path_join(&self.config_paths[i], file_name));
            i = i + 1;
        }
        out
    }

    /// The name under which an icon file is looked up: "<icons dir>/<file>".
    pub fn icon_file_name(&self, icon_file: &str) -> (r: String)
        ensures
            r@ == icon_rel(self.names_spec().icons_dir, icon_file@),
    {
        concat3(self.resource_names.icons_dir.as_str(), "/", icon_file)
    }

    /// The path of `file_name` in the first directory that holds it, given what the
    /// existence checks of its candidate paths came back with (`found[i]` answers
    /// for the `i`-th directory); `None` when no check found it.
    pub fn file(&self, file_name: &str, found: &Vec<bool>) -> (r: Option<String>)
        ensures
            opt_view(r) == first_found(self.dirs(), file_name@, found@),
            match r {
                Some(p) => exists|i: int|
                    0 <= i < self.dirs().len() && p@ == joined_path(#[trigger] self.dirs()[i], file_name@),
                None => true,
            },
    {
        proof {
            lemma_first_found_in_dirs(self.dirs(), file_name@, found@, 0);
        }
        let mut i: usize = 0;
        while i < self.config_paths.len() && i < found.len()
            invariant
                i <= self.config_paths@.len(),
                self.dirs().len() == self.config_paths@.len(),
                first_found_from(self.dirs(), file_name@, found@, i as int) == first_found(
                    self.dirs(),
                    file_name@,
                    found@,
                ),
            decreases self.config_paths.len() - i,
        {
            if found[i] {
                assert(self.dirs()[i as int] == self.config_paths@[i as int]@);
                return Some(path_join(&self.config_paths[i], file_name));
            }
            i = i + 1;
        }
        None
    }

    /// The path of an icon file in the icons directory of the first directory that
    /// holds it, given the existence checks of the candidate paths of its
    /// `icon_file_name` (see `file`).
    pub fn icon(&self, icon_file: &str, found: &Vec<bool>) -> (r: Option<String>)
        ensures
            opt_view(r) == first_found(self.dirs(), icon_rel(self.names_spec().icons_dir, icon_file@), found@),
    {
        let rel = self.icon_file_name(icon_file);
        self.file(rel.as_str(), found)
    }

    /// The path of the logging configuration file, given the existence checks of
    /// the candidate paths of its name (see `file`).
    pub fn log_toml(&self, found: &Vec<bool>) -> (r: Option<String>)
        ensures
            opt_view(r) == first_found(self.dirs(), self.names_spec().log_toml, found@),
    {
        self.file(self.resource_names.log_toml.as_str(), found)
    }

    /// The path of the settings file, given the existence checks of the candidate
    /// paths of its name (see `file`).
    pub fn settings_json(&self, found: &Vec<bool>) -> (r: Option<String>)
        ensures
            opt_view(r) == first_found(self.dirs(), self.names_spec().settings_json, found@),
    {
        self.file(self.resource_names.settings_json.as_str(), found)
    }

    /// The path that the lookup finds for `file_name` given the outcomes of its
    /// existence checks, or `file_name` in the first directory when none came
    /// back true.
    fn found_or_new(&self, file_name: &str, found: &Vec<bool>) -> (r: String)
        requires
            self.dirs().len() > 0,
        ensures
            r@ == found_or_first(self.dirs(), file_name@, found@),
    {
        match self.file(file_name, found) {
            Some(p) => p,
            None => {
                assert(self.dirs()[0] == self.config_paths@[0]@);
                path_join(&self.config_paths[0], file_name)
            },
        }
    }

    /// The path of the settings file given the existence checks of the candidate
    /// paths of its name (`found[i]` answers for the `i`-th directory): the first
    /// directory whose check came back true, else the first directory.
    pub fn settings_json_or(&self, found: &Vec<bool>) -> (r: String)
        requires
            self.dirs().len() > 0,
        ensures
            r@ == found_or_first(self.dirs(), self.names_spec().settings_json, found@),
    {
        self.found_or_new(self.resource_names.settings_json.as_str(), found)
    }

    /// Where a new file goes, given the existence checks of the candidate paths of
    /// `file_name` (`found[i]` answers for the `i`-th directory): in the first
    /// directory when no check found it, `None` when one did.
    pub fn new_file(&self, file_name: &str, found: &Vec<bool>) -> (r: Option<String>)
        requires
            self.dirs().len() > 0,
        ensures
            opt_view(r) == (if first_found(self.dirs(), file_name@, found@) is None {
                Some(joined_path(self.dirs()[0], file_name@))
            } else {
                None
            }),
    {
        match self.file(file_name, found) {
            None => {
                assert(self.dirs()[0] == self.config_paths@[0]@);
                Some(path_join(&self.config_paths[0], file_name))
            },
            Some(_) => None,
        }
    }

    /// Where a new icon file goes, given the existence checks of the candidate
    /// paths of its `icon_file_name` (see `new_file`).
    pub fn new_icon(&self, icon_file: &str, found: &Vec<bool>) -> (r: Option<String>)
        requires
            self.dirs().len() > 0,
        ensures
            opt_view(r) == (if first_found(self.dirs(), icon_rel(self.names_spec().icons_dir, icon_file@), found@) is None {
                Some(joined_path(self.dirs()[0], icon_rel(self.names_spec().icons_dir, icon_file@)))
            } else {
                None
            }),
    {
        let rel = self.icon_file_name(icon_file);
        self.new_file(rel.as_str(), found)
    }

    /// The icon detected for a process.
    pub fn detected_icon(&self, process_name: String) -> (r: DetectedIcon)
        ensures
            r.resources_spec().dirs() == self.dirs(),
            r.resources_spec().names_spec() == self.names_spec(),
            r.name_spec() == detected_name(process_name@),
    {
        DetectedIcon::new(self.clone(), process_name)
    }
}

/// The process name as a board name: lower case, without ".exe", with spaces,
/// dashes and plus signs turned into underscores.
pub open spec fn slug(process_name: Seq<char>) -> Seq<char> {
    replace_all(
        replace_all(
            replace_all(replace_all(lowercase_of(process_name), ".exe"@, ""@), " "@, "_"@),
            "-"@,
            "_"@,
        ),
        "+"@,
        "_"@,
    )
}

/// The process name as a board name: lower case, without ".exe", with spaces,
/// dashes and plus signs turned into underscores.
pub fn slugify_process_name(process_name: &str) -> (r: String)
    ensures
        r@ == slug(process_name@),
        forall|i: int|
            0 <= i < r@.len() ==> #[trigger] r@[i] != ' ' && r@[i] != '-' && r@[i] != '+' && !(
            'A' <= r@[i] <= 'Z'),
{
    proof {
        reveal_strlit(".exe");
        reveal_strlit("");
        reveal_strlit(" ");
        reveal_strlit("-");
        reveal_strlit("+");
        reveal_strlit("_");
    }
    let low = to_lowercase(process_name);
    let c0 = string_chars(&low);
    let c1 = replace_chars(&c0, &chars_of(".exe"), &chars_of(""));
    let c2 = replace_chars(&c1, &chars_of(" "), &chars_of("_"));
    let c3 = replace_chars(&c2, &chars_of("-"), &chars_of("_"));
    let c4 = replace_chars(&c3, &chars_of("+"), &chars_of("_"));
    proof {
        let small = |c: char| !('A' <= c <= 'Z');
        let no_space = |c: char| !('A' <= c <= 'Z') && c != ' ';
        let no_dash = |c: char| !('A' <= c <= 'Z') && c != ' ' && c != '-';
        assert(" "@ == seq![' ']);
        assert("-"@ == seq!['-']);
        assert("+"@ == seq!['+']);
        assert("_"@ == seq!['_']);
        assert forall|i: int| 0 <= i < c0@.len() implies small(#[trigger] c0@[i]) by {}
        lemma_replace_all_keeps(c0@, ".exe"@, ""@, small);
        lemma_replace_all_keeps(c1@, " "@, "_"@, small);
        lemma_replace_all_removes(c1@, ' ', "_"@);
        assert forall|i: int| 0 <= i < c2@.len() implies no_space(#[trigger] c2@[i]) by {
            assert(small(c2@[i]));
        }
        lemma_replace_all_keeps(c2@, "-"@, "_"@, no_space);
        lemma_replace_all_removes(c2@, '-', "_"@);
        assert forall|i: int| 0 <= i < c3@.len() implies no_dash(#[trigger] c3@[i]) by {
            assert(no_space(c3@[i]));
        }
        lemma_replace_all_keeps(c3@, "+"@, "_"@, no_dash);
        lemma_replace_all_removes(c3@, '+', "_"@);
        assert forall|i: int| 0 <= i < c4@.len() implies #[trigger] c4@[i] != ' ' && c4@[i] != '-'
            && c4@[i] != '+' && !('A' <= c4@[i] <= 'Z') by {
            assert(no_dash(c4@[i]));
        }
    }
    string_from_chars(&c4)
}

/// The file name of an icon detected for a process: "detected_<slug>.png".
pub open spec fn detected_name(process_name: Seq<char>) -> Seq<char> {
    "detected_"@ + slug(process_name) + ".png"@
}

/// `s` with every leading "detected_" removed.
pub open spec fn strip_detected(s: Seq<char>) -> Seq<char>
    decreases s.len(),
{
    if "detected_"@.len() > 0 && starts_with(s, "detected_"@) {
        strip_detected(s.skip("detected_"@.len() as int))
    } else {
        s
    }
}

/// An icon saved for a detected process, named after the process.
#[derive(Debug)]
pub struct DetectedIcon {
    resources: Resources,
    name: String,
}

impl Clone for DetectedIcon {
    fn clone(&self) -> (r: Self)
        ensures
            r.resources_spec().dirs() == self.resources_spec().dirs(),
            r.resources_spec().names_spec() == self.resources_spec().names_spec(),
            r.name_spec() == self.name_spec(),
    {
        DetectedIcon { resources: self.resources.clone(), name: self.name.clone() }
    }
}

impl DetectedIcon {
    /// The resources where the icon lives.
    pub closed spec fn resources_spec(&self) -> Resources {
        self.resources
    }

    /// The icon's file name.
    pub closed spec fn name_spec(&self) -> Seq<char> {
        self.name@
    }

    fn new(resources: Resources, process_name: String) -> (r: Self)
        ensures
            r.resources_spec() == resources,
            r.name_spec() == detected_name(process_name@),
    {
        let slugged = slugify_process_name(process_name.as_str());
        let name = concat3("detected_", slugged.as_str(), ".png");
        DetectedIcon { resources, name }
    }

    /// The icon's file name.
    pub fn name(&self) -> (r: String)
        ensures
            r@ == self.name_spec(),
    {
        self.name.clone()
    }

    /// Whether some directory holds the icon, given the existence checks of the
    /// candidate paths of its `icon_file_name` (`found[i]` answers for the `i`-th
    /// directory).
    pub fn icon_exists(&self, found: &Vec<bool>) -> (r: bool)
        ensures
            r == (first_found(
                self.resources_spec().dirs(),
                icon_rel(self.resources_spec().names_spec().icons_dir, self.name_spec()),
                found@,
            ) is Some),
    {
        self.resources.icon(self.name.as_str(), found).is_some()
    }

    /// The file name the icon keeps once confirmed: without the "detected_" prefix.
    pub fn final_name(&self) -> (r: String)
        ensures
            r@ == strip_detected(self.name_spec()),
    {
        proof {
            reveal_strlit("detected_");
        }
        let c = string_chars(&self.name);
        let p = chars_of("detected_");
        let mut i: usize = 0;
        assert(c@.skip(0) =~= c@);
        while matches_at(&c, &p, i)
            invariant
                i <= c@.len(),
                p@ == "detected_"@,
                p@.len() > 0,
                strip_detected(c@.skip(i as int)) == strip_detected(c@),
            decreases c.len() - i,
        {
            assert(c@.skip(i as int).skip(p@.len() as int) =~= c@.skip(i + p@.len()));
            i = i + p.len();
        }
        let mut out: Vec<char> = Vec::new();
        let mut k: usize = i;
        while k < c.len()
            invariant
                i <= k <= c@.len(),
                out@ == c@.subrange(i as int, k as int),
            decreases c.len() - k,
        {
            out.push(c[k]);
            k = k + 1;
            assert(out@ =~= c@.subrange(i as int, k as int));
        }
        assert(out@ =~= c@.skip(i as int));
        string_from_chars(&out)
    }

    /// Where the icon is, given the existence checks of the candidate paths of its
    /// `icon_file_name` (`found[i]` answers for the `i`-th directory): where the
    /// first check that came back true found it, else where a new one goes in the
    /// first directory.
    pub fn path(&self, found: &Vec<bool>) -> (r: String)
        requires
            self.resources_spec().dirs().len() > 0,
        ensures
            r@ == found_or_first(
                self.resources_spec().dirs(),
                icon_rel(self.resources_spec().names_spec().icons_dir, self.name_spec()),
                found@,
            ),
    {
        let rel = self.resources.icon_file_name(self.name.as_str());
        self.resources.found_or_new(rel.as_str(), found)
    }

    /// The icon, when it exists, given the existence checks of the candidate paths
    /// of its `icon_file_name` (see `icon_exists`).
    pub fn as_option(&self, found: &Vec<bool>) -> (r: Option<DetectedIcon>)
        ensures
            (r is Some) == (first_found(
                self.resources_spec().dirs(),
                icon_rel(self.resources_spec().names_spec().icons_dir, self.name_spec()),
                found@,
            ) is Some),
            match r {
                Some(d) => d.name_spec() == self.name_spec() && d.resources_spec().dirs()
                    == self.resources_spec().dirs() && d.resources_spec().names_spec()
                    == self.resources_spec().names_spec(),
                None => true,
            },
    {
        if self.icon_exists(found) {
            Some(self.clone())
        } else {
            None
        }
    }
}


/// Whether to fetch the icon of a process's window when the hook fires: not when
/// a detection already knows the process, nor when its icon was saved before in
/// this session (by the names in `saved`).
pub fn should_fetch_icon(detections: &Vec<crate::domain::data::Detection>, saved: &Vec<String>, process_name: &str) -> (r:
    bool)
    ensures
        r == (!(exists|i: int|
            0 <= i < detections@.len() && crate::domain::data::detection_matches(
                #[trigger] detections@[i]@,
                process_name@,
            )) && !crate::domain::data::strs_view(saved@).contains(detected_name(process_name@))),
{
    let mut i: usize = 0;
    while i < detections.len()
        invariant
            i <= detections@.len(),
            forall|j: int|
                0 <= j < i ==> !crate::domain::data::detection_matches(#[trigger] detections@[j]@, process_name@),
        decreases detections.len() - i,
    {
        if detections[i].is_match(process_name) {
            return false;
        }
        i = i + 1;
    }
    let slugged = slugify_process_name(process_name);
    let name = concat3("detected_", slugged.as_str(), ".png");
    let mut k: usize = 0;
    while k < saved.len()
        invariant
            k <= saved@.len(),
            name@ == detected_name(process_name@),
            forall|j: int| 0 <= j < k ==> saved@[j]@ != name@,
        decreases saved.len() - k,
    {
        if saved[k] == name {
            assert(crate::domain::data::strs_view(saved@)[k as int] == name@);
            return false;
        }
        k = k + 1;
    }
    proof {
        if crate::domain::data::strs_view(saved@).contains(name@) {
            let j = choose|j: int| 0 <= j < saved@.len() && crate::domain::data::strs_view(saved@)[j] == name@;
            assert(saved@[j]@ == name@);
        }
    }
    true
}

} // verus!

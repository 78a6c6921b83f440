//! Development defaults for a frontend project, taken from its manifest.

use crate::error::HeisenbergError;
use crate::text::chars_of;
use crate::text::contains_text;
use crate::text::find_text;
use crate::text::first_occurrence;
use crate::text::has_prefix;
use crate::text::least_index;
use crate::text::lemma_least_index_is;
use crate::text::same_text;
use crate::utils::json::json_document;
use crate::utils::json::parse_json;
use crate::utils::json::JsonValue;
use vstd::prelude::*;
use vstd::string::StringExecFns;

verus! {

/// What is assumed or found out about a frontend project.
#[derive(Debug)]
pub struct InferredConfig {
    /// Directory that holds the manifest and in which the dev command runs.
    pub working_dir: String,
    /// Path of the manifest; empty where none was found.
    pub package_json_path: String,
    /// Command that starts the development server, one argument per item.
    pub dev_command: Vec<String>,
    /// Port on which the development server listens.
    pub dev_port: u16,
    /// Address of the development server.
    pub dev_url: String,
}

/// Mathematical form of an [`InferredConfig`].
pub struct InferredView {
    /// The directory in which the dev command runs.
    pub working_dir: Seq<char>,
    /// The path of the manifest.
    pub package_json_path: Seq<char>,
    /// The command that starts the development server.
    pub dev_command: Seq<Seq<char>>,
    /// The port of the development server.
    pub dev_port: u16,
    /// The address of the development server.
    pub dev_url: Seq<char>,
}

impl View for InferredConfig {
    type V = InferredView;

    open spec fn view(&self) -> InferredView {
        InferredView {
            working_dir: self.working_dir@,
            package_json_path: self.package_json_path@,
            dev_command: self.dev_command.deep_view(),
            dev_port: self.dev_port,
            dev_url: self.dev_url@,
        }
    }
}

/// The command assumed where a project names none: `npm run dev`.
pub open spec fn fallback_command() -> Seq<Seq<char>> {
    seq!["npm"@, "run"@, "dev"@]
}

/// The defaults for a build directory whose parent directory is `parent`:
/// the command `npm run dev` on port 5173, run in the parent directory, or in
/// the build directory itself where it has no parent.
pub open spec fn default_inference(build_dir: Seq<char>, parent: Option<Seq<char>>) -> InferredView {
    InferredView {
        working_dir: match parent {
            Some(dir) => dir,
            None => build_dir,
        },
        package_json_path: Seq::empty(),
        dev_command: fallback_command(),
        dev_port: 5173,
        dev_url: "http://localhost:5173"@,
    }
}

/// Calls `std::path::Path::parent` on `path` and hands the parent directory
/// back as text. How a path splits follows the host's path syntax, so the
/// contract claims nothing of the result.
#[verifier::external_body]
fn parent_dir(path: &str) -> (parent: Option<String>) {
    match std::path::Path::new(path).parent() {
        Some(dir) => Some(dir.to_string_lossy().into_owned()),
        None => None,
    }
}

/// The command `npm run dev`.
fn npm_run_dev() -> (command: Vec<String>)
    ensures
        command.deep_view() == fallback_command(),
{
    let mut command: Vec<String> = Vec::new();
    command.push(String::from_str("npm"));
    command.push(String::from_str("run"));
    command.push(String::from_str("dev"));
    command
}

impl InferredConfig {
    /// The defaults for `build_dir`, given its parent directory.
    pub fn default_with_parent(build_dir: &str, parent: Option<String>) -> (config: Self)
        ensures
            config@ == default_inference(
                build_dir@,
                match parent {
                    Some(dir) => Some(dir@),
                    None => None,
                },
            ),
    {
        let working_dir = match parent {
            Some(dir) => dir,
            None => build_dir.to_owned(),
        };
        InferredConfig {
            working_dir,
            package_json_path: String::new(),
            dev_command: npm_run_dev(),
            dev_port: 5173,
            dev_url: String::from_str("http://localhost:5173"),
        }
    }

    /// The defaults used where nothing can be read from a manifest.
    ///
    /// The working directory is the parent of `build_dir` as the host's path
    /// syntax has it, or `build_dir` where it has none.
    pub fn default_for_dir(build_dir: &str) -> (config: Self)
        ensures
            exists|parent: Option<Seq<char>>| config@ == default_inference(build_dir@, parent),
    {
        let parent = parent_dir(build_dir);
        InferredConfig::default_with_parent(build_dir, parent)
    }
}

/// What a project manifest says, as far as it is read here.
#[derive(Debug)]
pub struct PackageJson {
    /// The scripts of the manifest, each with its name, in the order in
    /// which they are looked through.
    pub scripts: Vec<(String, String)>,
    /// The name of the package.
    pub name: Option<String>,
    /// The version of the package.
    pub version: Option<String>,
}

/// Mathematical form of a [`PackageJson`].
pub struct PackageView {
    /// The scripts, each with its name.
    pub scripts: Seq<(Seq<char>, Seq<char>)>,
    /// The name of the package.
    pub name: Option<Seq<char>>,
    /// The version of the package.
    pub version: Option<Seq<char>>,
}

/// The scripts of a list, each as a pair of texts.
pub open spec fn script_views(scripts: Seq<(String, String)>) -> Seq<(Seq<char>, Seq<char>)> {
    Seq::new(scripts.len(), |i: int| (scripts[i].0@, scripts[i].1@))
}

impl View for PackageJson {
    type V = PackageView;

    open spec fn view(&self) -> PackageView {
        PackageView {
            scripts: script_views(self.scripts@),
            name: match self.name {
                Some(name) => Some(name@),
                None => None,
            },
            version: match self.version {
                Some(version) => Some(version@),
                None => None,
            },
        }
    }
}

/// The words of a text as `str::split_whitespace` gives them.
pub uninterp spec fn whitespace_words(text: Seq<char>) -> Seq<Seq<char>>;

/// The number that `str::parse::<u16>` reads from a text, if it reads one.
pub uninterp spec fn port_number_of(text: Seq<char>) -> Option<u16>;

/// Calls `str::split_whitespace`, which cuts the text at Unicode white space
/// and depends on nothing but the text. The contract names the words and
/// claims nothing else of them.
#[verifier::external_body]
fn parse_command(command: &str) -> (words: Vec<String>)
    ensures
        words.deep_view() == whitespace_words(command@),
{
    command.split_whitespace().map(String::from).collect()
}

/// Calls `str::parse::<u16>`, which reads a decimal number and depends on
/// nothing but the text. The contract names the number and claims nothing
/// else of it.
#[verifier::external_body]
fn parse_port(text: &str) -> (port: Option<u16>)
    ensures
        port == port_number_of(text@),
{
    text.parse::<u16>().ok()
}

/// Calls `std::path::Path::file_name` on `path` and hands the last component
/// back as text. How a path splits follows the host's path syntax, so the
/// contract claims nothing of the result.
#[verifier::external_body]
fn last_component(path: &str) -> (name: Option<String>) {
    match std::path::Path::new(path).file_name() {
        Some(name) => Some(name.to_string_lossy().into_owned()),
        None => None,
    }
}

/// The member of an object under a key: the first that bears the key.
/// Nothing for a value that is no object or has no such member.
pub open spec fn member(document: JsonValue, key: Seq<char>) -> Option<JsonValue> {
    match document {
        JsonValue::Object(members) => {
            let at = least_index(members.len() as int, |i: int| members[i].0@ == key);
            if at >= 0 {
                Some(members[at].1)
            } else {
                None
            }
        },
        _ => None,
    }
}

/// The text of a value that is a string.
pub open spec fn text_of(value: Option<JsonValue>) -> Option<Seq<char>> {
    match value {
        Some(JsonValue::Text(text)) => Some(text@),
        _ => None,
    }
}

/// The members of an object that are strings, in order, each with its key.
pub open spec fn text_members(members: Seq<(String, JsonValue)>) -> Seq<(Seq<char>, Seq<char>)>
    decreases members.len(),
{
    if members.len() == 0 {
        Seq::empty()
    } else {
        let earlier = text_members(members.drop_last());
        match members.last().1 {
            JsonValue::Text(text) => earlier.push((members.last().0@, text@)),
            _ => earlier,
        }
    }
}

/// What a JSON document says as a manifest: the string members of its
/// `scripts` object, and its `name` and `version` where they are strings.
pub open spec fn manifest_of(document: JsonValue) -> PackageView {
    PackageView {
        scripts: match member(document, "scripts"@) {
            Some(JsonValue::Object(members)) => text_members(members@),
            _ => Seq::empty(),
        },
        name: text_of(member(document, "name"@)),
        version: text_of(member(document, "version"@)),
    }
}

/// The script of the given name: the first that bears it.
pub open spec fn script_named(scripts: Seq<(Seq<char>, Seq<char>)>, name: Seq<char>) -> Option<
    Seq<char>,
> {
    let at = least_index(scripts.len() as int, |i: int| scripts[i].0 == name);
    if at >= 0 {
        Some(scripts[at].1)
    } else {
        None
    }
}

/// The script that starts the development server: `dev`, else `start`, else
/// `serve`, else the first whose name begins with `dev:`.
pub open spec fn preferred_script(scripts: Seq<(Seq<char>, Seq<char>)>) -> Option<Seq<char>> {
    if script_named(scripts, "dev"@) is Some {
        script_named(scripts, "dev"@)
    } else if script_named(scripts, "start"@) is Some {
        script_named(scripts, "start"@)
    } else if script_named(scripts, "serve"@) is Some {
        script_named(scripts, "serve"@)
    } else {
        let at = least_index(scripts.len() as int, |i: int| "dev:"@.is_prefix_of(scripts[i].0));
        if at >= 0 {
            Some(scripts[at].1)
        } else {
            None
        }
    }
}

/// The command that starts the development server: the words of the
/// preferred script, or `npm run dev` where there is none.
pub open spec fn dev_command_of(scripts: Seq<(Seq<char>, Seq<char>)>) -> Seq<Seq<char>> {
    match preferred_script(scripts) {
        Some(script) => whitespace_words(script),
        None => fallback_command(),
    }
}

/// The port that follows the first occurrence of `flag` in a script: the
/// number that the next word reads as.
pub open spec fn port_after(script: Seq<char>, flag: Seq<char>) -> Option<u16> {
    let at = first_occurrence(script, flag);
    if at < 0 {
        None
    } else {
        let words = whitespace_words(script.skip(at + flag.len()));
        if words.len() == 0 {
            None
        } else {
            port_number_of(words[0])
        }
    }
}

/// The port that a script names, after `--port`, `-p` or `PORT=`.
pub open spec fn port_in(script: Seq<char>) -> Option<u16> {
    if port_after(script, "--port "@) is Some {
        port_after(script, "--port "@)
    } else if port_after(script, "--port="@) is Some {
        port_after(script, "--port="@)
    } else if port_after(script, "-p "@) is Some {
        port_after(script, "-p "@)
    } else if port_after(script, "-p="@) is Some {
        port_after(script, "-p="@)
    } else {
        port_after(script, "PORT="@)
    }
}

/// The port that the tool named in a script listens on by default.
pub open spec fn tool_port(script: Seq<char>) -> Option<u16> {
    if contains_text(script, "vite"@) {
        Some(5173u16)
    } else if contains_text(script, "webpack"@) || contains_text(script, "react-scripts"@)
        || contains_text(script, "next"@) {
        Some(3000u16)
    } else {
        None
    }
}

/// The port of the development server: the port of the first script that
/// names one, else the default of the first script that names a known tool,
/// else 5173.
pub open spec fn dev_port_of(scripts: Seq<(Seq<char>, Seq<char>)>) -> u16 {
    let named = least_index(scripts.len() as int, |i: int| port_in(scripts[i].1) is Some);
    if named >= 0 {
        port_in(scripts[named].1).unwrap()
    } else {
        let known = least_index(scripts.len() as int, |i: int| tool_port(scripts[i].1) is Some);
        if known >= 0 {
            tool_port(scripts[known].1).unwrap()
        } else {
            5173
        }
    }
}

/// The decimal digit for a number below ten.
pub open spec fn digit_of(value: int) -> char {
    if value == 0 {
        '0'
    } else if value == 1 {
        '1'
    } else if value == 2 {
        '2'
    } else if value == 3 {
        '3'
    } else if value == 4 {
        '4'
    } else if value == 5 {
        '5'
    } else if value == 6 {
        '6'
    } else if value == 7 {
        '7'
    } else if value == 8 {
        '8'
    } else {
        '9'
    }
}

/// A number in decimal digits, without leading zeros.
pub open spec fn decimal_text(value: nat) -> Seq<char>
    decreases value,
{
    if value < 10 {
        seq![digit_of(value as int)]
    } else {
        decimal_text(value / 10).push(digit_of((value % 10) as int))
    }
}

/// What is inferred from a manifest with the given scripts, kept at
/// `package_json_path` in `working_dir`.
pub open spec fn inference(
    working_dir: Seq<char>,
    package_json_path: Seq<char>,
    scripts: Seq<(Seq<char>, Seq<char>)>,
) -> InferredView {
    InferredView {
        working_dir,
        package_json_path,
        dev_command: dev_command_of(scripts),
        dev_port: dev_port_of(scripts),
        dev_url: "http://localhost:"@ + decimal_text(dev_port_of(scripts) as nat),
    }
}

/// The directory of the project whose build directory is `build_dir`, given
/// the last component of that path and its parent: the parent where the last
/// component is one of `dist`, `build`, `out`, `public` and `www`, and the
/// build directory itself otherwise.
pub open spec fn project_dir(
    build_dir: Seq<char>,
    last: Option<Seq<char>>,
    parent: Option<Seq<char>>,
) -> Seq<char> {
    match (last, parent) {
        (Some(name), Some(dir)) => if name == "dist"@ || name == "build"@ || name == "out"@
            || name == "public"@ || name == "www"@ {
            dir
        } else {
            build_dir
        },
        _ => build_dir,
    }
}

/// The digit for a number below ten, as text.
fn digit(value: u16) -> (text: &'static str)
    requires
        value < 10,
    ensures
        text@ == seq![digit_of(value as int)],
{
    proof {
        reveal_strlit("0");
        reveal_strlit("1");
        reveal_strlit("2");
        reveal_strlit("3");
        reveal_strlit("4");
        reveal_strlit("5");
        reveal_strlit("6");
        reveal_strlit("7");
        reveal_strlit("8");
        reveal_strlit("9");
    }
    let text = if value == 0 {
        "0"
    } else if value == 1 {
        "1"
    } else if value == 2 {
        "2"
    } else if value == 3 {
        "3"
    } else if value == 4 {
        "4"
    } else if value == 5 {
        "5"
    } else if value == 6 {
        "6"
    } else if value == 7 {
        "7"
    } else if value == 8 {
        "8"
    } else {
        "9"
    };
    text
}

/// A port in decimal digits.
pub fn port_text(port: u16) -> (text: String)
    ensures
        text@ == decimal_text(port as nat),
    decreases port,
{
    if port < 10 {
        String::from_str(digit(port))
    } else {
        let text = port_text(port / 10).concat(digit(port % 10));
        text
    }
}

impl PackageJson {
    /// The script of the given name, if the manifest has one.
    pub fn script(&self, name: &str) -> (script: Option<&String>)
        ensures
            match script {
                Some(text) => script_named(self@.scripts, name@) == Some(text@),
                None => script_named(self@.scripts, name@) is None,
            },
    {
        let ghost scripts = self@.scripts;
        let ghost holds = |i: int| scripts[i].0 == name@;
        let mut at: usize = 0;
        while at < self.scripts.len()
            invariant
                at <= self.scripts.len(),
                scripts == self@.scripts,
                holds == (|i: int| scripts[i].0 == name@),
                forall|j: int| 0 <= j < at ==> !#[trigger] holds(j),
            decreases self.scripts.len() - at,
        {
            if same_text(self.scripts[at].0.as_str(), name) {
                proof {
                    lemma_least_index_is(scripts.len() as int, holds, at as int);
                }
                return Some(&self.scripts[at].1);
            }
            at += 1;
        }
        proof {
            lemma_least_index_is(scripts.len() as int, holds, -1);
        }
        None
    }
}

/// The member of an object under a key.
fn json_member<'a>(document: &'a JsonValue, key: &str) -> (found: Option<&'a JsonValue>)
    ensures
        match found {
            Some(value) => member(*document, key@) == Some(*value),
            None => member(*document, key@) is None,
        },
{
    match document {
        JsonValue::Object(members) => {
            let ghost holds = |i: int| members[i].0@ == key@;
            let mut at: usize = 0;
            while at < members.len()
                invariant
                    at <= members.len(),
                    *document == JsonValue::Object(*members),
                    holds == (|i: int| members[i].0@ == key@),
                    forall|j: int| 0 <= j < at ==> !#[trigger] holds(j),
                decreases members.len() - at,
            {
                if same_text(members[at].0.as_str(), key) {
                    proof {
                        lemma_least_index_is(members.len() as int, holds, at as int);
                    }
                    return Some(&members[at].1);
                }
                at += 1;
            }
            proof {
                lemma_least_index_is(members.len() as int, holds, -1);
            }
            None
        },
        _ => None,
    }
}

/// The text of a member that is a string.
fn json_text(document: &JsonValue, key: &str) -> (text: Option<String>)
    ensures
        match text {
            Some(found) => text_of(member(*document, key@)) == Some(found@),
            None => text_of(member(*document, key@)) is None,
        },
{
    match json_member(document, key) {
        Some(JsonValue::Text(text)) => Some(text.clone()),
        _ => None,
    }
}

/// What a JSON document says as a manifest.
pub fn package_json_from(document: &JsonValue) -> (manifest: PackageJson)
    ensures
        manifest@ == manifest_of(*document),
{
    let mut scripts: Vec<(String, String)> = Vec::new();
    match json_member(document, "scripts") {
        Some(JsonValue::Object(members)) => {
            let mut at: usize = 0;
            while at < members.len()
                invariant
                    at <= members.len(),
                    script_views(scripts@) == text_members(members@.take(at as int)),
                decreases members.len() - at,
            {
                assert(members@.take(at + 1).drop_last() =~= members@.take(at as int));
                if let JsonValue::Text(text) = &members[at].1 {
                    scripts.push((members[at].0.clone(), text.clone()));
                }
                at += 1;
            }
            assert(members@.take(at as int) =~= members@);
        },
        _ => {
            assert(script_views(scripts@) =~= Seq::empty());
        },
    }
    PackageJson {
        scripts,
        name: json_text(document, "name"),
        version: json_text(document, "version"),
    }
}

/// Reads a manifest from its text. Fails exactly where the text is not
/// JSON.
pub fn parse_package_json(content: &str) -> (outcome: Result<PackageJson, HeisenbergError>)
    ensures
        match outcome {
            Ok(manifest) => json_document(content@) matches Some(document) && manifest@
                == manifest_of(document),
            Err(error) => json_document(content@) is None && error is PackageJsonParse,
        },
{
    match parse_json(content) {
        Ok(document) => Ok(package_json_from(&document)),
        Err(error) => Err(HeisenbergError::from(error)),
    }
}

/// The first script whose name begins with `dev:`.
fn dev_prefixed_script(package_json: &PackageJson) -> (script: Option<&String>)
    ensures
        ({
            let scripts = package_json@.scripts;
            let at = least_index(scripts.len() as int, |i: int| "dev:"@.is_prefix_of(scripts[i].0));
            match script {
                Some(text) => at >= 0 && scripts[at].1 == text@,
                None => at < 0,
            }
        }),
{
    let ghost scripts = package_json@.scripts;
    let ghost holds = |i: int| "dev:"@.is_prefix_of(scripts[i].0);
    let mut at: usize = 0;
    while at < package_json.scripts.len()
        invariant
            at <= package_json.scripts.len(),
            scripts == package_json@.scripts,
            holds == (|i: int| "dev:"@.is_prefix_of(scripts[i].0)),
            forall|j: int| 0 <= j < at ==> !#[trigger] holds(j),
        decreases package_json.scripts.len() - at,
    {
        if has_prefix(package_json.scripts[at].0.as_str(), "dev:") {
            proof {
                lemma_least_index_is(scripts.len() as int, holds, at as int);
            }
            return Some(&package_json.scripts[at].1);
        }
        at += 1;
    }
    proof {
        lemma_least_index_is(scripts.len() as int, holds, -1);
    }
    None
}

/// The command that starts the development server of a project.
pub fn infer_dev_command(package_json: &PackageJson) -> (command: Vec<String>)
    ensures
        command.deep_view() == dev_command_of(package_json@.scripts),
{
    if let Some(script) = package_json.script("dev") {
        return parse_command(script.as_str());
    }
    if let Some(script) = package_json.script("start") {
        return parse_command(script.as_str());
    }
    if let Some(script) = package_json.script("serve") {
        return parse_command(script.as_str());
    }
    match dev_prefixed_script(package_json) {
        Some(script) => parse_command(script.as_str()),
        None => npm_run_dev(),
    }
}

/// The port that follows the first occurrence of `flag` in a script.
fn port_after_flag(script: &str, chars: &Vec<char>, flag: &str) -> (port: Option<u16>)
    requires
        chars@ == script@,
    ensures
        port == port_after(script@, flag@),
{
    let needle = chars_of(flag);
    match find_text(chars, &needle) {
        Some(at) => {
            let rest = script.substring_char(at + needle.len(), chars.len());
            let words = parse_command(rest);
            if words.len() == 0 {
                None
            } else {
                parse_port(words[0].as_str())
            }
        },
        None => None,
    }
}

/// The port that a script names, after `--port`, `-p` or `PORT=`.
pub fn extract_port_from_script(script: &str) -> (port: Option<u16>)
    ensures
        port == port_in(script@),
{
    let chars = chars_of(script);
    let port = port_after_flag(script, &chars, "--port ");
    if port.is_some() {
        return port;
    }
    let port = port_after_flag(script, &chars, "--port=");
    if port.is_some() {
        return port;
    }
    let port = port_after_flag(script, &chars, "-p ");
    if port.is_some() {
        return port;
    }
    let port = port_after_flag(script, &chars, "-p=");
    if port.is_some() {
        return port;
    }
    port_after_flag(script, &chars, "PORT=")
}

/// Whether `word` stands somewhere in the text.
fn mentions(chars: &Vec<char>, word: &str) -> (found: bool)
    ensures
        found == contains_text(chars@, word@),
{
    let needle = chars_of(word);
    find_text(chars, &needle).is_some()
}

/// The port that the tool named in a script listens on by default.
pub fn default_port_of_tool(script: &str) -> (port: Option<u16>)
    ensures
        port == tool_port(script@),
{
    let chars = chars_of(script);
    if mentions(&chars, "vite") {
        Some(5173)
    } else if mentions(&chars, "webpack") || mentions(&chars, "react-scripts") || mentions(
        &chars,
        "next",
    ) {
        Some(3000)
    } else {
        None
    }
}

/// The port of the first script that names one.
fn first_named_port(package_json: &PackageJson) -> (port: Option<u16>)
    ensures
        ({
            let scripts = package_json@.scripts;
            let at = least_index(scripts.len() as int, |i: int| port_in(scripts[i].1) is Some);
            match port {
                Some(number) => at >= 0 && port_in(scripts[at].1) == Some(number),
                None => at < 0,
            }
        }),
{
    let ghost scripts = package_json@.scripts;
    let ghost names_port = |i: int| port_in(scripts[i].1) is Some;
    let mut at: usize = 0;
    while at < package_json.scripts.len()
        invariant
            at <= package_json.scripts.len(),
            scripts == package_json@.scripts,
            names_port == (|i: int| port_in(scripts[i].1) is Some),
            forall|j: int| 0 <= j < at ==> !#[trigger] names_port(j),
        decreases package_json.scripts.len() - at,
    {
        let port = extract_port_from_script(package_json.scripts[at].1.as_str());
        if port.is_some() {
            proof {
                lemma_least_index_is(scripts.len() as int, names_port, at as int);
            }
            return port;
        }
        at += 1;
    }
    proof {
        lemma_least_index_is(scripts.len() as int, names_port, -1);
    }
    None
}

/// The default port of the first script that names a known tool.
fn first_tool_port(package_json: &PackageJson) -> (port: Option<u16>)
    ensures
        ({
            let scripts = package_json@.scripts;
            let at = least_index(scripts.len() as int, |i: int| tool_port(scripts[i].1) is Some);
            match port {
                Some(number) => at >= 0 && tool_port(scripts[at].1) == Some(number),
                None => at < 0,
            }
        }),
{
    let ghost scripts = package_json@.scripts;
    let ghost names_tool = |i: int| tool_port(scripts[i].1) is Some;
    let mut at: usize = 0;
    while at < package_json.scripts.len()
        invariant
            at <= package_json.scripts.len(),
            scripts == package_json@.scripts,
            names_tool == (|i: int| tool_port(scripts[i].1) is Some),
            forall|j: int| 0 <= j < at ==> !#[trigger] names_tool(j),
        decreases package_json.scripts.len() - at,
    {
        let port = default_port_of_tool(package_json.scripts[at].1.as_str());
        if port.is_some() {
            proof {
                lemma_least_index_is(scripts.len() as int, names_tool, at as int);
            }
            return port;
        }
        at += 1;
    }
    proof {
        lemma_least_index_is(scripts.len() as int, names_tool, -1);
    }
    None
}

/// The port of the development server of a project.
pub fn infer_dev_port(package_json: &PackageJson) -> (port: u16)
    ensures
        port == dev_port_of(package_json@.scripts),
{
    match first_named_port(package_json) {
        Some(port) => port,
        None => match first_tool_port(package_json) {
            Some(port) => port,
            None => 5173,
        },
    }
}

/// The project directory for a build directory, given the last component of
/// its path and its parent.
pub fn working_dir_from(build_dir: &str, last: Option<String>, parent: Option<String>) -> (dir:
    String)
    ensures
        dir@ == project_dir(
            build_dir@,
            match last {
                Some(name) => Some(name@),
                None => None,
            },
            match parent {
                Some(text) => Some(text@),
                None => None,
            },
        ),
{
    match (last, parent) {
        (Some(name), Some(dir)) => {
            let name = name.as_str();
            if same_text(name, "dist") || same_text(name, "build") || same_text(name, "out")
                || same_text(name, "public") || same_text(name, "www") {
                dir
            } else {
                build_dir.to_owned()
            }
        },
        _ => build_dir.to_owned(),
    }
}

/// The project directory for a build directory that was resolved to an
/// absolute path: its parent where it bears one of the usual names of a
/// build directory, as the host's path syntax splits it, and itself
/// otherwise.
pub fn infer_working_dir(build_dir: &str) -> (dir: String)
    ensures
        exists|last: Option<Seq<char>>, parent: Option<Seq<char>>|
            dir@ == #[trigger] project_dir(build_dir@, last, parent),
{
    let last = last_component(build_dir);
    let parent = parent_dir(build_dir);
    working_dir_from(build_dir, last, parent)
}

impl InferredConfig {
    /// What is inferred from a manifest kept at `package_json_path` in
    /// `working_dir`.
    pub fn from_manifest(working_dir: &str, package_json_path: &str, manifest: &PackageJson) -> (config:
        Self)
        ensures
            config@ == inference(working_dir@, package_json_path@, manifest@.scripts),
    {
        let dev_command = infer_dev_command(manifest);
        let dev_port = infer_dev_port(manifest);
        InferredConfig {
            working_dir: working_dir.to_owned(),
            package_json_path: package_json_path.to_owned(),
            dev_command,
            dev_port,
            dev_url: String::from_str("http://localhost:").concat(port_text(dev_port).as_str()),
        }
    }
}

/// What is inferred for a project from the text of its manifest, kept at
/// `package_json_path` in `working_dir`. Fails exactly where the text is not
/// JSON.
pub fn infer_from_build_dir(working_dir: &str, package_json_path: &str, content: &str) -> (outcome:
    Result<InferredConfig, HeisenbergError>)
    ensures
        match outcome {
            Ok(config) => json_document(content@) matches Some(document) && config@ == inference(
                working_dir@,
                package_json_path@,
                manifest_of(document).scripts,
            ),
            Err(error) => json_document(content@) is None && error is PackageJsonParse,
        },
{
    match parse_package_json(content) {
        Ok(manifest) => Ok(
            InferredConfig::from_manifest(working_dir, package_json_path, &manifest),
        ),
        Err(error) => Err(error),
    }
}

} // verus!

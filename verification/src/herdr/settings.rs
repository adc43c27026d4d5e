//! Reading herdr's own configuration, to name the chord that detaches a
//! session and draw the indicator set herdr draws.

use vstd::prelude::*;

use crate::herdr::model::{Indicators, Settings};
use crate::json::Json;
#[allow(unused_imports)]
use crate::json::{field, opt_tree, text_of, Tree};
use crate::side::{exec_invocation, Platform, Side};
#[allow(unused_imports)]
use crate::side::SideView;
use crate::text::{after_prefix, blank, chars_of, concat3, from_range, join, same, split, trim};
#[allow(unused_imports)]
use crate::text::{is_blank, joined, opt_text, split_on, texts, trimmed};

verus! {

pub const DEFAULT_PREFIX: &'static str = "ctrl+b";

pub const DEFAULT_DETACH: &'static str = "prefix+q";

/// The document a configuration text holds, as `toml` reads it, and `None`
/// where the text is no TOML document.
pub uninterp spec fn config_document(text: Seq<char>) -> Option<Tree>;

/// The upper-case spelling of one character beyond ASCII, as
/// `char::to_uppercase` gives it.
pub uninterp spec fn upper_case(c: char) -> Seq<char>;

#[verifier::external_type_specification]
#[verifier::external_body]
pub struct ExTomlValue(toml::Value);

/// `toml::from_str` into a `toml::Table`: what comes back depends on the text
/// alone.
#[verifier::external_body]
fn parse_config(text: &str) -> (r: Option<Json>)
    ensures
        opt_tree(r) == config_document(text@),
{
    toml::from_str::<toml::Table>(text).ok().map(|t| of_toml(toml::Value::Table(t)))
}

/// A `toml::Value` as the library's own tree, variant by variant.  A datetime
/// becomes the table of one member that `toml` shows a reader for it.
#[verifier::external_body]
fn of_toml(value: toml::Value) -> (r: Json) {
    match value {
        toml::Value::Boolean(b) => Json::Bool(b),
        toml::Value::Integer(i) => Json::Signed(i),
        toml::Value::Float(f) => Json::Real(f.to_string()),
        toml::Value::Datetime(d) => {
            let name = "$__toml_private_datetime".to_string();
            Json::Object(vec![(name, Json::Text(d.to_string()))])
        },
        toml::Value::String(s) => Json::Text(s),
        toml::Value::Array(a) => Json::Array(a.into_iter().map(of_toml).collect()),
        toml::Value::Table(t) => {
            Json::Object(t.into_iter().map(|(k, v)| (k, of_toml(v))).collect())
        },
    }
}

/// `char::to_uppercase`: an ASCII letter becomes its upper-case letter and any
/// other ASCII character stays; beyond ASCII the characters it gives depend on
/// the character alone.
#[verifier::external_body]
fn uppercase(c: char) -> (r: String)
    ensures
        (c as u32) < 128 ==> r@ == seq![upper_ascii(c)],
        (c as u32) >= 128 ==> r@ == upper_case(c),
{
    c.to_uppercase().collect()
}

/// herdr binds an action to one key or to several.
pub enum RawBinding {
    One(String),
    Many(Vec<String>),
}

/// A binding with the characters of its keys.
pub enum BindingView {
    One(Seq<char>),
    Many(Seq<Seq<char>>),
}

impl View for RawBinding {
    type V = BindingView;

    open spec fn view(&self) -> BindingView {
        match self {
            RawBinding::One(key) => BindingView::One(key@),
            RawBinding::Many(several) => BindingView::Many(texts(several@)),
        }
    }
}

/// A key that says something, without the white space around it.
pub open spec fn bound(key: Seq<char>) -> Option<Seq<char>> {
    if is_blank(key) {
        None
    } else {
        Some(trimmed(key))
    }
}

/// The key a hint names: the first of a binding, unless it is blank, which is
/// herdr's spelling for unbound.
pub open spec fn first_key(binding: BindingView) -> Option<Seq<char>> {
    match binding {
        BindingView::One(key) => bound(key),
        BindingView::Many(several) => if several.len() == 0 {
            None
        } else {
            bound(several[0])
        },
    }
}

impl RawBinding {
    /// The binding a hint names.  herdr's own help surface leads with the
    /// first, and a row has space for one.  An empty string is herdr's
    /// spelling for unbound.
    pub fn first(&self) -> (r: Option<String>)
        ensures
            opt_text(r) == first_key(self@),
    {
        let key = match self {
            RawBinding::One(key) => key,
            RawBinding::Many(several) => {
                if several.len() == 0 {
                    return None;
                }
                assert(texts(several@)[0] == several@[0]@);
                &several[0]
            },
        };
        if blank(key) {
            None
        } else {
            Some(trim(key))
        }
    }
}

/// The parts of herdr's config that matter here.
pub struct RawConfig {
    pub prefix: Option<String>,
    pub detach: Option<RawBinding>,
    pub status_indicators: Option<String>,
}

/// The parts of herdr's config with their characters.
pub struct ConfigView {
    pub prefix: Option<Seq<char>>,
    pub detach: Option<BindingView>,
    pub status_indicators: Option<Seq<char>>,
}

impl View for RawConfig {
    type V = ConfigView;

    open spec fn view(&self) -> ConfigView {
        ConfigView {
            prefix: opt_text(self.prefix),
            detach: match self.detach {
                Some(binding) => Some(binding@),
                None => None,
            },
            status_indicators: opt_text(self.status_indicators),
        }
    }
}

/// A table herdr reads: absent, a table, or the values of its first keys in
/// order, of which none may be left off.
pub open spec fn is_table(table: Option<Tree>, keys: nat) -> bool {
    match table {
        None => true,
        Some(Tree::Object(_)) => true,
        Some(Tree::Array(items)) => keys <= items.len(),
        Some(_) => false,
    }
}

/// A text herdr reads: absent, or a text.
pub open spec fn is_text(value: Option<Tree>) -> bool {
    value is None || value->0 is Text
}

/// The value under a key of a table that may be absent.
pub open spec fn key_of(table: Option<Tree>, key: Seq<char>, place: nat) -> Option<Tree> {
    match table {
        Some(t) => field(t, key, place),
        None => None,
    }
}

/// A binding herdr reads: absent, a text, or an array of texts.
pub open spec fn is_binding(value: Option<Tree>) -> bool {
    match value {
        None => true,
        Some(Tree::Text(_)) => true,
        Some(Tree::Array(items)) => forall|i: int| 0 <= i < items.len() ==> (#[trigger] items[i]) is Text,
        Some(_) => false,
    }
}

/// The binding a well-formed value stands for.
pub open spec fn binding_of(value: Option<Tree>) -> Option<BindingView> {
    match value {
        Some(Tree::Text(key)) => Some(BindingView::One(key)),
        Some(Tree::Array(items)) => Some(BindingView::Many(items.map_values(|t: Tree| t->Text_0))),
        _ => None,
    }
}

/// Whether herdr would accept the document.
pub open spec fn accepted_config(config: Option<Tree>) -> bool {
    let keys = key_of(config, "keys"@, 0);
    let ui = key_of(config, "ui"@, 1);
    &&& config is Some
    &&& is_table(config, 0)
    &&& is_table(keys, 2)
    &&& is_table(ui, 1)
    &&& is_text(key_of(keys, "prefix"@, 0))
    &&& is_binding(key_of(keys, "detach"@, 1))
    &&& is_text(key_of(ui, "status_indicators"@, 0))
}

/// The settings herdr runs with: those of a document it accepts, and its
/// defaults under one it would reject.
pub open spec fn config_of(config: Option<Tree>) -> ConfigView {
    if accepted_config(config) {
        ConfigView {
            prefix: text_of(key_of(key_of(config, "keys"@, 0), "prefix"@, 0)),
            detach: binding_of(key_of(key_of(config, "keys"@, 0), "detach"@, 1)),
            status_indicators: text_of(key_of(key_of(config, "ui"@, 1), "status_indicators"@, 0)),
        }
    } else {
        ConfigView { prefix: None, detach: None, status_indicators: None }
    }
}

fn no_config() -> (r: RawConfig)
    ensures
        r@ == (ConfigView { prefix: None, detach: None, status_indicators: None }),
{
    RawConfig { prefix: None, detach: None, status_indicators: None }
}

fn value_at<'a>(table: Option<&'a Json>, key: &str, place: usize) -> (r: Option<&'a Json>)
    ensures
        crate::json::opt_ref_tree(r) == key_of(crate::json::opt_ref_tree(table), key@, place as nat),
{
    match table {
        Some(t) => t.field(key, place),
        None => None,
    }
}

fn table_fits(table: Option<&Json>, keys: usize) -> (r: bool)
    ensures
        r == is_table(crate::json::opt_ref_tree(table), keys as nat),
{
    match table {
        None => true,
        Some(Json::Object(_)) => true,
        Some(Json::Array(items)) => keys <= items.len(),
        Some(_) => false,
    }
}

fn binding_in(value: Option<&Json>) -> (r: Option<Option<RawBinding>>)
    ensures
        r is Some <==> is_binding(crate::json::opt_ref_tree(value)),
        r matches Some(b) ==> (match b {
            Some(binding) => Some(binding@),
            None => None,
        }) == binding_of(crate::json::opt_ref_tree(value)),
{
    match value {
        None => Some(None),
        Some(Json::Text(key)) => Some(Some(RawBinding::One(key.clone()))),
        Some(Json::Array(items)) => {
            let ghost trees = value->0@->Array_0;
            let mut out: Vec<String> = Vec::new();
            let mut i: usize = 0;
            while i < items.len()
                invariant
                    i <= items@.len(),
                    value is Some,
                    value->0@ == Tree::Array(trees),
                    trees.len() == items@.len(),
                    forall|k: int| 0 <= k < items@.len() ==> #[trigger] trees[k] == items@[k]@,
                    out@.len() == i,
                    forall|k: int| 0 <= k < i ==> #[trigger] trees[k] == Tree::Text(out@[k]@),
                decreases items@.len() - i,
            {
                assert(trees[i as int] == items@[i as int]@);
                match &items[i] {
                    Json::Text(key) => out.push(key.clone()),
                    _ => {
                        return None;
                    },
                }
                i += 1;
            }
            assert(texts(out@) =~= trees.map_values(|t: Tree| t->Text_0));
            Some(Some(RawBinding::Many(out)))
        },
        Some(_) => None,
    }
}

/// The settings of a config document that has been read.
pub fn config_in(config: &Option<Json>) -> (r: RawConfig)
    ensures
        r@ == config_of(opt_tree(*config)),
{
    let document = match config {
        Some(document) => document,
        None => return no_config(),
    };
    let keys = document.field("keys", 0);
    let ui = document.field("ui", 1);
    if !table_fits(Some(document), 0) || !table_fits(keys, 2) || !table_fits(ui, 1) {
        return no_config();
    }
    let prefix = match value_at(keys, "prefix", 0) {
        None => None,
        Some(Json::Text(t)) => Some(t.clone()),
        Some(_) => return no_config(),
    };
    let status_indicators = match value_at(ui, "status_indicators", 0) {
        None => None,
        Some(Json::Text(t)) => Some(t.clone()),
        Some(_) => return no_config(),
    };
    match binding_in(value_at(keys, "detach", 1)) {
        Some(detach) => RawConfig { prefix, detach, status_indicators },
        None => no_config(),
    }
}

/// One key of a combo with its first letter in upper case.
pub open spec fn rendered_key(key: Seq<char>) -> Seq<char> {
    if key.len() == 0 {
        key
    } else if key.len() == 1 && (key[0] as u32) < 128 {
        seq![upper_ascii(key[0])]
    } else {
        uppered(key[0]) + key.drop_first()
    }
}

/// The upper-case spelling of one character.
pub open spec fn uppered(c: char) -> Seq<char> {
    if (c as u32) < 128 {
        seq![upper_ascii(c)]
    } else {
        upper_case(c)
    }
}

/// The ASCII upper-case of a character.
pub open spec fn upper_ascii(c: char) -> char {
    if 'a' <= c <= 'z' {
        ((c as u32) - 32) as char
    } else {
        c
    }
}

/// A `+`-joined combo with each of its keys rendered.
pub open spec fn rendered_combo(raw: Seq<char>) -> Seq<char> {
    joined(split_on(raw, '+').map_values(|key: Seq<char>| rendered_key(key)), "+"@)
}

/// The half of a prefix binding that follows the prefix.
pub open spec fn rendered_rest(rest: Seq<char>) -> Seq<char> {
    if rest.contains('+') {
        rendered_combo(rest)
    } else {
        rest
    }
}

fn to_upper_ascii(c: char) -> (r: char)
    ensures
        r == upper_ascii(c),
{
    if c >= 'a' && c <= 'z' {
        let n: u8 = c as u8;
        (n - 32) as char
    } else {
        c
    }
}

/// One key of a combo, as chords are spelled elsewhere.
pub fn render_key(key: &str) -> (r: String)
    ensures
        r@ == rendered_key(key@),
{
    let cs = chars_of(key);
    if cs.len() == 0 {
        return String::new();
    }
    let first = cs[0];
    if cs.len() == 1 && (first as u32) < 128 {
        let mut r = String::new();
        r.push(to_upper_ascii(first));
        assert(r@ == seq![upper_ascii(first)]);
        return r;
    }
    let mut r = uppercase(first);
    let rest = from_range(&cs, 1, cs.len());
    assert(rest@ == key@.drop_first());
    r.append(rest.as_str());
    r
}

/// Render one `+`-joined combo the way chords are spelled elsewhere: `ctrl+b`
/// reads as `Ctrl+B`.
pub fn render_combo(raw: &str) -> (r: String)
    ensures
        r@ == rendered_combo(raw@),
{
    let pieces = split(raw, '+');
    let ghost all = texts(pieces@);
    let ghost want = all.map_values(|key: Seq<char>| rendered_key(key));
    let mut out: Vec<String> = Vec::new();
    let mut i: usize = 0;
    while i < pieces.len()
        invariant
            i <= pieces@.len(),
            all == texts(pieces@),
            want == all.map_values(|key: Seq<char>| rendered_key(key)),
            texts(out@) == want.take(i as int),
        decreases pieces@.len() - i,
    {
        let ghost before = out@;
        out.push(render_key(&pieces[i]));
        assert(all[i as int] == pieces@[i as int]@);
        assert(texts(out@) == texts(before).push(want[i as int]));
        assert(want.take(i + 1) == want.take(i as int).push(want[i as int]));
        i += 1;
    }
    assert(want.take(want.len() as int) == want);
    join(&out, "+")
}

/// The half of a prefix binding that follows the prefix.  A bare key keeps
/// herdr's own lowercase spelling, so the hint matches herdr's documentation
/// (`ctrl+b q`); a modified one is a combo and reads like one.
pub fn render_prefixed(rest: &str) -> (r: String)
    ensures
        r@ == rendered_rest(rest@),
{
    let cs = chars_of(rest);
    let mut i: usize = 0;
    while i < cs.len()
        invariant
            cs@ == rest@,
            i <= cs@.len(),
            forall|k: int| 0 <= k < i ==> cs@[k] != '+',
        decreases cs@.len() - i,
    {
        if cs[i] == '+' {
            assert(rest@.contains('+'));
            return render_combo(rest);
        }
        i += 1;
    }
    assert(!rest@.contains('+'));
    rest.to_owned()
}

/// The prefix a config binds, or herdr's own.
pub open spec fn prefix_of(config: ConfigView) -> Seq<char> {
    match config.prefix {
        Some(prefix) if !is_blank(prefix) => trimmed(prefix),
        _ => DEFAULT_PREFIX@,
    }
}

/// The detach binding: the config's first, or herdr's own, and none where the
/// config unbinds it.
pub open spec fn detach_of(config: ConfigView) -> Option<Seq<char>> {
    match config.detach {
        Some(binding) => first_key(binding),
        None => Some(DEFAULT_DETACH@),
    }
}

/// The detach chord, spelled as herdr documents it.
pub open spec fn detach_chord(config: ConfigView) -> Option<Seq<char>> {
    match detach_of(config) {
        None => None,
        Some(detach) => Some(
            if "prefix+"@.is_prefix_of(detach) {
                rendered_combo(prefix_of(config)) + " "@ + rendered_rest(detach.skip("prefix+"@.len() as int))
            } else {
                rendered_combo(detach)
            },
        ),
    }
}

/// The indicator set a config selects.
pub open spec fn indicators_of(config: ConfigView) -> Indicators {
    if config.status_indicators == Some("symbols"@) {
        Indicators::Symbols
    } else {
        Indicators::Dots
    }
}

/// What a config says about leaving a pane and drawing its state.
pub open spec fn settings_of(config: ConfigView) -> (Option<Seq<char>>, Indicators) {
    (detach_chord(config), indicators_of(config))
}

/// The detach chord of a config, spelled as herdr documents it.
///
/// A config herdr itself would reject falls back to the defaults herdr would
/// then run with, so a typo anywhere in the file does not silence the hint.
/// `None` means detach is bound to nothing — the one case where there is no
/// chord to advertise.
pub fn detach_chord_in(config: &RawConfig) -> (r: Option<String>)
    ensures
        opt_text(r) == detach_chord(config@),
{
    let prefix = match &config.prefix {
        Some(prefix) => if blank(prefix) {
            DEFAULT_PREFIX.to_owned()
        } else {
            trim(prefix)
        },
        None => DEFAULT_PREFIX.to_owned(),
    };
    let detach = match &config.detach {
        Some(binding) => match binding.first() {
            Some(key) => key,
            None => return None,
        },
        None => DEFAULT_DETACH.to_owned(),
    };
    match after_prefix(&detach, "prefix+") {
        Some(rest) => {
            assert(rest@ == detach@.skip("prefix+"@.len() as int));
            Some(concat3(render_combo(&prefix).as_str(), " ", render_prefixed(&rest).as_str()))
        },
        None => Some(render_combo(&detach)),
    }
}

/// The indicator set of a config.
pub fn indicators_in(config: &RawConfig) -> (r: Indicators)
    ensures
        r == indicators_of(config@),
{
    match &config.status_indicators {
        Some(set) => if same(set, "symbols") {
            Indicators::Symbols
        } else {
            Indicators::Dots
        },
        None => Indicators::Dots,
    }
}

/// The detach chord `config` binds.
pub fn detach_chord_from(config: &str) -> (r: Option<String>)
    ensures
        opt_text(r) == detach_chord(config_of(config_document(config@))),
{
    detach_chord_in(&config_in(&parse_config(config)))
}

/// The indicator set `config` selects.
pub fn indicators_from(config: &str) -> (r: Indicators)
    ensures
        r == indicators_of(config_of(config_document(config@))),
{
    indicators_in(&config_in(&parse_config(config)))
}

/// What a config text says about leaving a pane and drawing its state.
pub fn settings_from(config: &str) -> (r: Settings)
    ensures
        (opt_text(r.detach), r.indicators) == settings_of(config_of(config_document(config@))),
{
    Settings { detach: detach_chord_from(config), indicators: indicators_from(config) }
}

/// Any document herdr would reject gives the hint and the marks herdr would
/// then run with.
pub proof fn a_rejected_config_reads_as_an_untouched_one(config: Option<Tree>)
    requires
        !accepted_config(config),
    ensures
        settings_of(config_of(config)) == settings_of(config_of(Some(Tree::Object(Seq::empty())))),
{
    let empty = Some(Tree::Object(Seq::<(Seq<char>, Tree)>::empty()));
    assert(key_of(empty, "keys"@, 0) is None);
    assert(key_of(empty, "ui"@, 1) is None);
}

/// There is no chord to name exactly where the config binds detach to nothing.
pub proof fn only_an_unbound_detach_has_no_chord(config: ConfigView)
    ensures
        detach_chord(config) is None <==> (config.detach is Some && first_key(config.detach->0) is None),
{
}

/// What came of reading a side's config file.
pub enum ConfigRead {
    /// The text of the file.
    Text(String),
    /// There is no such file: herdr runs on its defaults there.
    Missing,
    /// The side could not be read at all.
    Unreadable,
}

/// What herdr's own config on a side says about leaving a pane and drawing
/// its state.  Every part is user-settable, so a row spelling out a chord the
/// user has rebound would be worse than a row that stays quiet: a side that
/// could not be read says nothing.
pub fn settings(read: &ConfigRead) -> (r: Option<Settings>)
    ensures
        r is None <==> read is Unreadable,
        r matches Some(s) ==> (opt_text(s.detach), s.indicators) == settings_of(
            config_of(
                config_document(
                    match *read {
                        ConfigRead::Text(text) => text@,
                        _ => Seq::empty(),
                    },
                ),
            ),
        ),
{
    match read {
        ConfigRead::Text(text) => Some(settings_from(text)),
        ConfigRead::Missing => {
            let empty = String::new();
            Some(settings_from(&empty))
        },
        ConfigRead::Unreadable => None,
    }
}

/// The shell that prints a distro's herdr config.  Resolution happens inside
/// the distro because that is where the environment it depends on lives; a
/// missing file prints nothing and still exits zero, which reads as herdr's
/// defaults rather than as a distro that could not be reached.
pub const CONFIG_SCRIPT: &'static str =
    "p=${HERDR_CONFIG_PATH:-${XDG_CONFIG_HOME:-$HOME/.config}/herdr/config.toml}; [ -f \"$p\" ] && cat \"$p\" || true";

/// The program that prints a side's config, and its arguments.
pub open spec fn config_call(side: SideView) -> Option<(Seq<char>, Seq<Seq<char>>)> {
    match side {
        SideView::Native => None,
        SideView::Wsl(distro) => Some(
            ("wsl.exe"@, seq!["-d"@, distro, "--exec"@, "sh"@, "-lc"@, CONFIG_SCRIPT@]),
        ),
    }
}

/// The command that prints a distro's config, and none on the native side,
/// whose file is read in place.
pub fn config_command(side: &Side) -> (r: Option<(String, Vec<String>)>)
    ensures
        (match r {
            Some((program, args)) => Some((program@, texts(args@))),
            None => None,
        }) == config_call(side@),
        r is None <==> side@ is Native,
        side@ matches SideView::Wsl(distro) ==> (r->0).0@ == "wsl.exe"@ && texts((r->0).1@) == seq![
            "-d"@,
            distro,
            "--exec"@,
            "sh"@,
            "-lc"@,
            CONFIG_SCRIPT@,
        ],
{
    match side {
        Side::Native => None,
        Side::Wsl(distro) => {
            let command: [&str; 3] = ["sh", "-lc", CONFIG_SCRIPT];
            let r = exec_invocation(distro, &command);
            assert(texts(r.1@) == seq!["-d"@, distro@, "--exec"@, "sh"@, "-lc"@, CONFIG_SCRIPT@]);
            Some(r)
        },
    }
}

/// The environment variables that say where a config lies.
pub struct ConfigEnv {
    pub herdr_config_path: Option<String>,
    pub xdg_config_home: Option<String>,
    pub appdata: Option<String>,
    pub home: Option<String>,
    pub userprofile: Option<String>,
}

/// The directory that the environment gives, and the names below it.
pub open spec fn config_place(env: ConfigEnv, platform: Platform) -> Option<(Seq<char>, Seq<Seq<char>>)> {
    let below = seq!["herdr"@, "config.toml"@];
    if env.herdr_config_path is Some {
        Some((env.herdr_config_path->0@, Seq::empty()))
    } else if env.xdg_config_home is Some {
        Some((env.xdg_config_home->0@, below))
    } else if platform is Windows && env.appdata is Some {
        Some((env.appdata->0@, below))
    } else if env.home is Some {
        Some((env.home->0@, seq![".config"@] + below))
    } else if env.userprofile is Some {
        Some((env.userprofile->0@, seq![".config"@] + below))
    } else {
        None
    }
}

/// Where herdr looks for its config, mirroring its own resolution so both
/// programs read the same file: a directory and the names to join to it.
/// `HERDR_CONFIG_PATH` wins everywhere, then `XDG_CONFIG_HOME` — herdr
/// consults it on Windows too, before the platform directory, so a Windows
/// user with it set keeps one config under `~`.
pub fn native_config_path(env: &ConfigEnv, platform: Platform) -> (r: Option<(String, Vec<&'static str>)>)
    ensures
        (match r {
            Some(place) => Some((place.0@, crate::text::slices(place.1@))),
            None => None,
        }) == config_place(*env, platform),
{
    if let Some(path) = &env.herdr_config_path {
        let none: Vec<&'static str> = Vec::new();
        assert(crate::text::slices(none@) == Seq::<Seq<char>>::empty());
        return Some((path.clone(), none));
    }
    let mut below: Vec<&'static str> = Vec::new();
    if let Some(dir) = &env.xdg_config_home {
        below.push("herdr");
        below.push("config.toml");
        assert(crate::text::slices(below@) == seq!["herdr"@, "config.toml"@]);
        return Some((dir.clone(), below));
    }
    if platform == Platform::Windows {
        if let Some(dir) = &env.appdata {
            below.push("herdr");
            below.push("config.toml");
            assert(crate::text::slices(below@) == seq!["herdr"@, "config.toml"@]);
            return Some((dir.clone(), below));
        }
    }
    let home = match &env.home {
        Some(home) => home.clone(),
        None => match &env.userprofile {
            Some(home) => home.clone(),
            None => return None,
        },
    };
    below.push(".config");
    below.push("herdr");
    below.push("config.toml");
    assert(crate::text::slices(below@) == seq![".config"@] + seq!["herdr"@, "config.toml"@]);
    Some((home, below))
}

} // verus!

//! How a herdr configuration becomes the detach chord and the indicators.

use vstd::prelude::*;

#[allow(unused_imports)]
use crate::herdr::model::Indicators;
#[allow(unused_imports)]
use crate::herdr::settings::{
    accepted_config, config_call, config_of, config_place, detach_chord, detach_of, first_key, indicators_of,
    prefix_of, rendered_combo, rendered_key, rendered_rest, settings_of, BindingView, ConfigEnv, ConfigView,
};
#[allow(unused_imports)]
use crate::ipc::request_laws::given_text;
#[allow(unused_imports)]
use crate::json::{lookup, Tree};
#[allow(unused_imports)]
use crate::side::{Platform, SideView};
#[allow(unused_imports)]
use crate::text::{is_blank, joined, split_on, trimmed};

verus! {

/// The prefix and the detach key are read from `keys` and the indicators from
/// `ui`, each under its own name.
pub proof fn a_config_is_read_by_its_names(
    config: Seq<(Seq<char>, Tree)>,
    keys: Seq<(Seq<char>, Tree)>,
    ui: Seq<(Seq<char>, Tree)>,
    prefix: Seq<char>,
    detach: Seq<char>,
    indicators: Seq<char>,
)
    requires
        lookup(config, "keys"@) == Some(Tree::Object(keys)),
        lookup(config, "ui"@) == Some(Tree::Object(ui)),
        given_text(lookup(keys, "prefix"@), prefix),
        given_text(lookup(keys, "detach"@), detach),
        given_text(lookup(ui, "status_indicators"@), indicators),
    ensures
        config_of(Some(Tree::Object(config))) == (ConfigView {
            prefix: Some(prefix),
            detach: Some(BindingView::One(detach)),
            status_indicators: Some(indicators),
        }),
{
}

/// A name that is left out leaves its setting unset, and what is left out
/// spoils nothing else.
pub proof fn what_a_config_leaves_out_is_unset(config: Seq<(Seq<char>, Tree)>, keys: Seq<(Seq<char>, Tree)>)
    requires
        lookup(config, "keys"@) == Some(Tree::Object(keys)),
        lookup(config, "ui"@) is None,
        lookup(keys, "prefix"@) is None,
        lookup(keys, "detach"@) is None,
    ensures
        config_of(Some(Tree::Object(config))) == (ConfigView { prefix: None, detach: None, status_indicators: None }),
        accepted_config(Some(Tree::Object(config))),
{
}

/// A list of detach keys is taken over as a list, and only its first counts.
pub proof fn the_first_of_several_keys_counts(several: Seq<Seq<char>>, key: Seq<char>)
    ensures
        first_key(BindingView::Many(several)) == if several.len() == 0 {
            None
        } else {
            first_key(BindingView::One(several[0]))
        },
        first_key(BindingView::One(key)) == if is_blank(key) {
            None
        } else {
            Some(trimmed(key))
        },
{
}

/// Where nothing is configured the prefix is Ctrl and B, detaching is the
/// prefix and Q, and the indicators are dots.
pub proof fn the_settings_herdr_comes_with(config: ConfigView)
    ensures
        config.prefix is None ==> prefix_of(config) == "ctrl+b"@,
        config.detach is None ==> detach_of(config) == Some("prefix+q"@),
        config.status_indicators is None ==> indicators_of(config) == Indicators::Dots,
        config.prefix matches Some(prefix) ==> is_blank(prefix) ==> prefix_of(config) == "ctrl+b"@,
        config.prefix matches Some(prefix) ==> !is_blank(prefix) ==> prefix_of(config) == trimmed(prefix),
{
}

/// The indicators are symbols where the configuration says "symbols" and dots
/// wherever it says anything else.
pub proof fn only_symbols_are_symbols(config: ConfigView)
    ensures
        indicators_of(config) == Indicators::Symbols <==> config.status_indicators == Some("symbols"@),
        settings_of(config).0 == detach_chord(config),
        settings_of(config).1 == indicators_of(config),
{
}

/// A detach key behind the prefix is shown as the prefix, a space and the key;
/// any other as the key alone.
pub proof fn a_detach_chord_is_shown_after_its_prefix(config: ConfigView, rest: Seq<char>, key: Seq<char>)
    ensures
        detach_of(config) == Some("prefix+"@ + rest) ==> detach_chord(config) == Some(
            rendered_combo(prefix_of(config)) + " "@ + rendered_rest(rest),
        ),
        detach_of(config) == Some(key) && !"prefix+"@.is_prefix_of(key) ==> detach_chord(config) == Some(
            rendered_combo(key),
        ),
        detach_of(config) is None ==> detach_chord(config) is None,
{
    let whole = "prefix+"@ + rest;
    assert(whole.skip("prefix+"@.len() as int) =~= rest);
    assert("prefix+"@ =~= whole.take("prefix+"@.len() as int));
    assert("prefix+"@.is_prefix_of(whole));
}

/// The rest of a chord is shown as it is, unless it is a chord itself.
pub proof fn a_single_rest_is_shown_as_it_is(rest: Seq<char>)
    ensures
        !rest.contains('+') ==> rendered_rest(rest) == rest,
        rest.contains('+') ==> rendered_rest(rest) == rendered_combo(rest),
{
}

/// A key is shown with its first letter in upper case and the rest as it is.
pub proof fn a_key_is_shown_capitalised(key: Seq<char>)
    requires
        key.len() > 0,
        (key[0] as u32) < 128,
    ensures
        rendered_key(key).len() == key.len(),
        forall|i: int| 1 <= i < key.len() ==> rendered_key(key)[i] == key[i],
        'a' <= key[0] <= 'z' ==> rendered_key(key)[0] as int == key[0] as int - 'a' as int + 'A' as int,
        !('a' <= key[0] <= 'z') ==> rendered_key(key)[0] == key[0],
{
}

/// A chord is shown key by key, joined by pluses as it was.
pub proof fn a_chord_is_shown_key_by_key(raw: Seq<char>)
    ensures
        ({
            let keys = split_on(raw, '+');
            let shown = Seq::new(keys.len(), |i: int| rendered_key(keys[i]));
            rendered_combo(raw) == joined(shown, seq!['+'])
        }),
{
    reveal_strlit("+");
    let keys = split_on(raw, '+');
    let shown = Seq::new(keys.len(), |i: int| rendered_key(keys[i]));
    assert(keys.map_values(|key: Seq<char>| rendered_key(key)) =~= shown);
    assert("+"@ =~= seq!['+']);
}

/// A configuration is where herdr's own variable says, as it is; else in
/// `herdr/config.toml` under the XDG directory, under the application data on
/// Windows, or under `.config` in the home directory.
pub proof fn where_a_config_is_read_from(env: ConfigEnv, platform: Platform)
    ensures
        ({
            let place = config_place(env, platform);
            let own = env.herdr_config_path;
            let xdg = env.xdg_config_home;
            &&& own is Some ==> place == Some((own->0@, Seq::<Seq<char>>::empty()))
            &&& own is None && xdg is Some ==> place == Some((xdg->0@, seq!["herdr"@, "config.toml"@]))
            &&& own is None && xdg is None && platform is Windows && env.appdata is Some ==> place == Some(
                (env.appdata->0@, seq!["herdr"@, "config.toml"@]),
            )
            &&& own is None && xdg is None && (platform is Unix || env.appdata is None) ==> {
                &&& env.home is Some ==> place == Some((env.home->0@, seq![".config"@, "herdr"@, "config.toml"@]))
                &&& env.home is None && env.userprofile is Some ==> place == Some(
                    (env.userprofile->0@, seq![".config"@, "herdr"@, "config.toml"@]),
                )
                &&& env.home is None && env.userprofile is None ==> place is None
            }
        }),
{
    let below = seq!["herdr"@, "config.toml"@];
    assert(seq![".config"@] + below =~= seq![".config"@, "herdr"@, "config.toml"@]);
}

/// A table may also be a row of its values in order, if it holds them all; any
/// other value in a table's place spoils the configuration.
pub proof fn a_table_may_be_a_row(config: Seq<(Seq<char>, Tree)>, prefix: Seq<char>, detach: Seq<char>, other: Tree)
    requires
        lookup(config, "ui"@) is None,
    ensures
        lookup(config, "keys"@) == Some(Tree::Array(seq![Tree::Text(prefix), Tree::Text(detach)])) ==> config_of(
            Some(Tree::Object(config)),
        ) == (ConfigView { prefix: Some(prefix), detach: Some(BindingView::One(detach)), status_indicators: None }),
        lookup(config, "keys"@) == Some(Tree::Array(seq![Tree::Text(prefix)])) ==> !accepted_config(
            Some(Tree::Object(config)),
        ),
        lookup(config, "keys"@) == Some(other) && !(other is Object) && !(other is Array) ==> !accepted_config(
            Some(Tree::Object(config)),
        ),
        !accepted_config(None),
{
}

/// A setting of another kind than text spoils the configuration, which is then
/// read as if nothing was set.
pub proof fn a_setting_of_another_kind_spoils_the_config(
    config: Seq<(Seq<char>, Tree)>,
    keys: Seq<(Seq<char>, Tree)>,
    ui: Seq<(Seq<char>, Tree)>,
)
    requires
        lookup(config, "keys"@) == Some(Tree::Object(keys)),
        lookup(config, "ui"@) == Some(Tree::Object(ui)),
        (lookup(keys, "prefix"@) is Some && !(lookup(keys, "prefix"@)->0 is Text)) || (lookup(keys, "detach"@) is Some
            && !(lookup(keys, "detach"@)->0 is Text) && !(lookup(keys, "detach"@)->0 is Array)) || (lookup(
            ui,
            "status_indicators"@,
        ) is Some && !(lookup(ui, "status_indicators"@)->0 is Text)),
    ensures
        config_of(Some(Tree::Object(config))) == (ConfigView { prefix: None, detach: None, status_indicators: None }),
{
}

/// Several detach keys are read in order, where all are texts.
pub proof fn several_keys_are_read_in_order(config: Seq<(Seq<char>, Tree)>, keys: Seq<(Seq<char>, Tree)>, items: Seq<Tree>, i: int)
    requires
        lookup(config, "keys"@) == Some(Tree::Object(keys)),
        lookup(config, "ui"@) is None,
        lookup(keys, "prefix"@) is None,
        lookup(keys, "detach"@) == Some(Tree::Array(items)),
        0 <= i < items.len(),
    ensures
        (forall|k: int| 0 <= k < items.len() ==> (#[trigger] items[k]) is Text) ==> {
            &&& config_of(Some(Tree::Object(config))).detach matches Some(BindingView::Many(several))
            &&& several.len() == items.len()
            &&& items[i] == Tree::Text(several[i])
        },
        !(items[i] is Text) ==> !accepted_config(Some(Tree::Object(config))),
{
}

/// The native config is read in place; a distro's is printed by its login
/// shell, from where herdr there looks for it, and a missing one is no failure.
pub proof fn how_a_config_is_fetched(distro: Seq<char>)
    ensures
        config_call(SideView::Native) is None,
        config_call(SideView::Wsl(distro)) == Some(
            (
                "wsl.exe"@,
                seq![
                    "-d"@,
                    distro,
                    "--exec"@,
                    "sh"@,
                    "-lc"@,
                    "p=${HERDR_CONFIG_PATH:-${XDG_CONFIG_HOME:-$HOME/.config}/herdr/config.toml}; [ -f \"$p\" ] && cat \"$p\" || true"@,
                ],
            ),
        ),
{
}

} // verus!

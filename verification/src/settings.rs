//! Language server settings: defaults that the user's own settings override.
//!
//! A settings object is modelled as a list of name and value pairs; its
//! meaning is the map that inserting the pairs in order builds, so that a
//! later pair for a name replaces an earlier one. The values that a user
//! writes are of any type `V`; the defaults of this crate are flags.
use vstd::prelude::*;
use crate::text::owned;

verus! {

/// A value in a settings object: a flag that this crate sets by default, or
/// a value that the user wrote.
pub enum SettingValue<V> {
    Flag(bool),
    User(V),
}

/// The map that inserting the pairs of `entries` in order builds.
pub open spec fn settings_map<V>(entries: Seq<(String, V)>) -> Map<Seq<char>, V>
    decreases entries.len(),
{
    if entries.len() == 0 {
        Map::empty()
    } else {
        settings_map(entries.drop_last()).insert(entries.last().0@, entries.last().1)
    }
}

/// No name occurs twice in `entries`.
pub open spec fn keys_unique<V>(entries: Seq<(String, V)>) -> bool {
    forall|i: int, j: int|
        0 <= i < j < entries.len() ==> #[trigger] entries[i].0@ != #[trigger] entries[j].0@
}

/// The names of `entries`.
pub open spec fn setting_names<V>(entries: Seq<(String, V)>) -> Set<Seq<char>> {
    Set::new(|k: Seq<char>| exists|i: int| 0 <= i < entries.len() && entries[i].0@ == k)
}

pub proof fn lemma_settings_map_push<V>(entries: Seq<(String, V)>, e: (String, V))
    ensures
        settings_map(entries.push(e)) == settings_map(entries).insert(e.0@, e.1),
{
    assert(entries.push(e).drop_last() =~= entries);
}

pub proof fn lemma_settings_map_dom<V>(entries: Seq<(String, V)>)
    ensures
        settings_map(entries).dom() == setting_names(entries),
    decreases entries.len(),
{
    if entries.len() > 0 {
        lemma_settings_map_dom(entries.drop_last());
        assert forall|k: Seq<char>| #[trigger]
            setting_names(entries).contains(k) implies settings_map(entries).dom().contains(
            k,
        ) by {
            let i = choose|i: int| 0 <= i < entries.len() && entries[i].0@ == k;
            if i < entries.len() - 1 {
                assert(entries.drop_last()[i].0@ == k);
                assert(setting_names(entries.drop_last()).contains(k));
            }
        }
        assert forall|k: Seq<char>| #[trigger]
            settings_map(entries).dom().contains(k) implies setting_names(entries).contains(
            k,
        ) by {
            if k != entries.last().0@ {
                assert(setting_names(entries.drop_last()).contains(k));
                let i = choose|i: int|
                    0 <= i < entries.drop_last().len() && entries.drop_last()[i].0@ == k;
                assert(entries[i].0@ == k);
            } else {
                assert(entries[entries.len() - 1].0@ == k);
            }
        }
        assert(settings_map(entries).dom() =~= setting_names(entries));
    } else {
        assert(settings_map(entries).dom() =~= setting_names(entries));
    }
}

/// Replacing the value of a name that occurs once replaces it in the map.
pub proof fn lemma_settings_map_update<V>(entries: Seq<(String, V)>, i: int, e: (String, V))
    requires
        keys_unique(entries),
        0 <= i < entries.len(),
        entries[i].0@ == e.0@,
    ensures
        settings_map(entries.update(i, e)) == settings_map(entries).insert(e.0@, e.1),
    decreases entries.len(),
{
    let u = entries.update(i, e);
    if i == entries.len() - 1 {
        assert(u.drop_last() =~= entries.drop_last());
        assert(settings_map(u) =~= settings_map(entries).insert(e.0@, e.1));
    } else {
        let d = entries.drop_last();
        assert(u.drop_last() =~= d.update(i, e));
        assert forall|a: int, b: int| 0 <= a < b < d.len() implies #[trigger] d[a].0@
            != #[trigger] d[b].0@ by {
            assert(entries[a].0@ != entries[b].0@);
        }
        lemma_settings_map_update(d, i, e);
        assert(entries.last().0@ != e.0@) by {
            assert(entries[i].0@ != entries[entries.len() - 1].0@);
        }
        assert(settings_map(u) =~= settings_map(entries).insert(e.0@, e.1));
    }
}

/// The pairs of `b` inserted after those of `a` override them.
pub proof fn lemma_settings_map_append<V>(a: Seq<(String, V)>, b: Seq<(String, V)>)
    ensures
        settings_map(a + b) == settings_map(a).union_prefer_right(settings_map(b)),
    decreases b.len(),
{
    if b.len() == 0 {
        assert(a + b =~= a);
        assert(settings_map(a) =~= settings_map(a).union_prefer_right(settings_map(b)));
    } else {
        lemma_settings_map_append(a, b.drop_last());
        assert((a + b).drop_last() =~= a + b.drop_last());
        assert((a + b).last() == b.last());
        assert(settings_map(a + b) =~= settings_map(a).union_prefer_right(settings_map(b)));
    }
}

/// The position of the pair named `name`, if there is one.
fn position_of<V>(entries: &Vec<(String, V)>, name: &String) -> (r: Option<usize>)
    ensures
        match r {
            Some(i) => i < entries@.len() && entries@[i as int].0@ == name@,
            None => forall|j: int| 0 <= j < entries@.len() ==> entries@[j].0@ != name@,
        },
{
    let mut i: usize = 0;
    while i < entries.len()
        invariant
            i <= entries@.len(),
            forall|j: int| 0 <= j < i ==> entries@[j].0@ != name@,
        decreases entries@.len() - i,
    {
        if entries[i].0 == *name {
            return Some(i);
        }
        i = i + 1;
    }
    None
}

/// `base` with the pairs of `overrides` applied in order: a pair whose
/// name is already there replaces its value, any other is added.
pub fn merge_settings<V>(base: Vec<(String, V)>, overrides: Vec<(String, V)>) -> (r: Vec<
    (String, V),
>)
    requires
        keys_unique(base@),
    ensures
        settings_map(r@) == settings_map(base@ + overrides@),
        keys_unique(r@),
{
    let mut r = base;
    let mut rest = overrides;
    let ghost all = overrides@;
    let ghost mut done: int = 0;
    proof {
        assert(base@ + all.take(0) =~= base@);
        assert(rest@ =~= all.skip(0));
    }
    while rest.len() > 0
        invariant
            0 <= done <= all.len(),
            rest@ == all.skip(done),
            keys_unique(r@),
            settings_map(r@) == settings_map(base@ + all.take(done)),
        decreases rest@.len(),
    {
        let e = rest.remove(0);
        proof {
            assert(e == all[done]);
            assert(base@ + all.take(done + 1) =~= (base@ + all.take(done)).push(e));
            lemma_settings_map_push(base@ + all.take(done), e);
        }
        match position_of(&r, &e.0) {
            Some(i) => {
                proof {
                    lemma_settings_map_update(r@, i as int, e);
                }
                let ghost before = r@;
                r.set(i, e);
                proof {
                    assert(r@ == before.update(i as int, e));
                    assert forall|a: int, b: int| 0 <= a < b < r@.len() implies #[trigger] r@[a].0@
                        != #[trigger] r@[b].0@ by {
                        assert(before[a].0@ != before[b].0@);
                    }
                }
            },
            None => {
                proof {
                    lemma_settings_map_push(r@, e);
                }
                let ghost before = r@;
                r.push(e);
                proof {
                    assert(r@ == before.push(e));
                    assert forall|a: int, b: int| 0 <= a < b < r@.len() implies #[trigger] r@[a].0@
                        != #[trigger] r@[b].0@ by {
                        if b < before.len() {
                            assert(before[a].0@ != before[b].0@);
                        } else {
                            assert(before[a].0@ != e.0@);
                        }
                    }
                }
            },
        }
        proof {
            done = done + 1;
            assert(rest@ =~= all.skip(done));
        }
    }
    proof {
        assert(all.take(done) =~= all);
    }
    r
}

/// The values that a user wrote, taken as user values.
pub open spec fn user_values<V>(entries: Seq<(String, V)>) -> Seq<(String, SettingValue<V>)> {
    entries.map_values(|p: (String, V)| (p.0, SettingValue::User(p.1)))
}

/// The settings object that the user wrote, as a map of user values; none
/// when the user's settings are not an object.
pub open spec fn user_map<V>(user: Option<Seq<(String, V)>>) -> Map<Seq<char>, SettingValue<V>> {
    match user {
        Some(entries) => settings_map(user_values(entries)),
        None => Map::empty(),
    }
}

pub proof fn lemma_user_values_map<V>(entries: Seq<(String, V)>)
    ensures
        settings_map(user_values(entries)) == settings_map(entries).map_values(
            |v: V| SettingValue::User(v),
        ),
    decreases entries.len(),
{
    if entries.len() > 0 {
        lemma_user_values_map(entries.drop_last());
        assert(user_values(entries).drop_last() =~= user_values(entries.drop_last()));
    }
    assert(settings_map(user_values(entries)) =~= settings_map(entries).map_values(
        |v: V| SettingValue::User(v),
    ));
}

/// The user's settings, each value taken as a user value.
pub fn lift_user_settings<V>(entries: Vec<(String, V)>) -> (r: Vec<(String, SettingValue<V>)>)
    ensures
        r@ == user_values(entries@),
{
    let ghost all = entries@;
    let mut rest = entries;
    let mut r: Vec<(String, SettingValue<V>)> = Vec::new();
    while rest.len() > 0
        invariant
            r@.len() + rest@.len() == all.len(),
            rest@ == all.skip(r@.len() as int),
            r@ == user_values(all.take(r@.len() as int)),
        decreases rest@.len(),
    {
        let ghost k = r@.len() as int;
        let (name, value) = rest.remove(0);
        r.push((name, SettingValue::User(value)));
        proof {
            assert(all.take(k + 1) =~= all.take(k).push(all[k]));
            assert(r@ =~= user_values(all.take(k + 1)));
            assert(rest@ =~= all.skip(k + 1));
        }
    }
    proof {
        assert(all.take(r@.len() as int) =~= all);
    }
    r
}

/// Adds the flag `name` set to `value`.
fn push_flag<V>(entries: &mut Vec<(String, SettingValue<V>)>, name: &str, value: bool)
    ensures
        settings_map(final(entries)@) == settings_map(old(entries)@).insert(
            name@,
            SettingValue::Flag(value),
        ),
{
    let e = (owned(name), SettingValue::Flag(value));
    proof {
        lemma_settings_map_push(entries@, e);
    }
    entries.push(e);
}

/// The flags that the user's settings then override, in a settings object.
pub fn with_user_settings<V>(
    defaults: Vec<(String, SettingValue<V>)>,
    user: Option<Vec<(String, V)>>,
) -> (r: Vec<(String, SettingValue<V>)>)
    ensures
        settings_map(r@) == settings_map(defaults@).union_prefer_right(
            user_map(
                match user {
                    Some(u) => Some(u@),
                    None => None,
                },
            ),
        ),
        keys_unique(r@),
{
    let base = merge_settings(Vec::new(), defaults);
    proof {
        assert(Seq::<(String, SettingValue<V>)>::empty() + defaults@ =~= defaults@);
    }
    match user {
        Some(u) => {
            let lifted = lift_user_settings(u);
            let r = merge_settings(base, lifted);
            proof {
                lemma_settings_map_append(base@, lifted@);
            }
            r
        },
        None => {
            let r = merge_settings(base, Vec::new());
            proof {
                assert(base@ + Seq::<(String, SettingValue<V>)>::empty() =~= base@);
                assert(settings_map(base@) =~= settings_map(base@).union_prefer_right(
                    Map::empty(),
                ));
            }
            r
        },
    }
}

/// The defaults for csharp-ls: analyzers on, metadata URIs on.
pub open spec fn csharp_ls_defaults<V>() -> Map<Seq<char>, SettingValue<V>> {
    Map::empty().insert("analyzersEnabled"@, SettingValue::Flag(true)).insert(
        "useMetadataUris"@,
        SettingValue::Flag(true),
    )
}

pub fn csharp_ls_default_entries<V>() -> (r: Vec<(String, SettingValue<V>)>)
    ensures
        settings_map(r@) == csharp_ls_defaults::<V>(),
{
    let mut r: Vec<(String, SettingValue<V>)> = Vec::new();
    push_flag(&mut r, "analyzersEnabled", true);
    push_flag(&mut r, "useMetadataUris", true);
    r
}

/// The defaults for the Roslyn server: Razor cohosting on, the code lenses
/// that do nothing in the editor off, and every inlay hint on.
pub open spec fn roslyn_defaults<V>() -> Map<Seq<char>, SettingValue<V>> {
    Map::empty().insert(
        "razor|language_server.cohosting_enabled"@,
        SettingValue::Flag(true),
    ).insert("csharp|code_lens.dotnet_enable_references_code_lens"@, SettingValue::Flag(false)).insert(
        "csharp|code_lens.dotnet_enable_tests_code_lens"@,
        SettingValue::Flag(false),
    ).insert("razor|code_lens.dotnet_enable_references_code_lens"@, SettingValue::Flag(false)).insert(
        "razor|code_lens.dotnet_enable_tests_code_lens"@,
        SettingValue::Flag(false),
    ).insert(
        "csharp|inlay_hints.dotnet_enable_inlay_hints_for_parameters"@,
        SettingValue::Flag(true),
    ).insert(
        "csharp|inlay_hints.dotnet_enable_inlay_hints_for_literal_parameters"@,
        SettingValue::Flag(true),
    ).insert(
        "csharp|inlay_hints.dotnet_enable_inlay_hints_for_indexer_parameters"@,
        SettingValue::Flag(true),
    ).insert(
        "csharp|inlay_hints.dotnet_enable_inlay_hints_for_object_creation_parameters"@,
        SettingValue::Flag(true),
    ).insert(
        "csharp|inlay_hints.dotnet_enable_inlay_hints_for_other_parameters"@,
        SettingValue::Flag(true),
    ).insert("csharp|inlay_hints.csharp_enable_inlay_hints_for_types"@, SettingValue::Flag(true)).insert(
        "csharp|inlay_hints.csharp_enable_inlay_hints_for_implicit_variable_types"@,
        SettingValue::Flag(true),
    ).insert(
        "csharp|inlay_hints.csharp_enable_inlay_hints_for_lambda_parameter_types"@,
        SettingValue::Flag(true),
    ).insert(
        "csharp|inlay_hints.csharp_enable_inlay_hints_for_implicit_object_creation"@,
        SettingValue::Flag(true),
    ).insert(
        "csharp|inlay_hints.csharp_enable_inlay_hints_for_collection_expressions"@,
        SettingValue::Flag(true),
    )
}

pub fn roslyn_default_entries<V>() -> (r: Vec<(String, SettingValue<V>)>)
    ensures
        settings_map(r@) == roslyn_defaults::<V>(),
{
    let mut r: Vec<(String, SettingValue<V>)> = Vec::new();
    push_flag(&mut r, "razor|language_server.cohosting_enabled", true);
    push_flag(&mut r, "csharp|code_lens.dotnet_enable_references_code_lens", false);
    push_flag(&mut r, "csharp|code_lens.dotnet_enable_tests_code_lens", false);
    push_flag(&mut r, "razor|code_lens.dotnet_enable_references_code_lens", false);
    push_flag(&mut r, "razor|code_lens.dotnet_enable_tests_code_lens", false);
    push_flag(&mut r, "csharp|inlay_hints.dotnet_enable_inlay_hints_for_parameters", true);
    push_flag(&mut r, "csharp|inlay_hints.dotnet_enable_inlay_hints_for_literal_parameters", true);
    push_flag(&mut r, "csharp|inlay_hints.dotnet_enable_inlay_hints_for_indexer_parameters", true);
    push_flag(
        &mut r,
        "csharp|inlay_hints.dotnet_enable_inlay_hints_for_object_creation_parameters",
        true,
    );
    push_flag(&mut r, "csharp|inlay_hints.dotnet_enable_inlay_hints_for_other_parameters", true);
    push_flag(&mut r, "csharp|inlay_hints.csharp_enable_inlay_hints_for_types", true);
    push_flag(
        &mut r,
        "csharp|inlay_hints.csharp_enable_inlay_hints_for_implicit_variable_types",
        true,
    );
    push_flag(
        &mut r,
        "csharp|inlay_hints.csharp_enable_inlay_hints_for_lambda_parameter_types",
        true,
    );
    push_flag(
        &mut r,
        "csharp|inlay_hints.csharp_enable_inlay_hints_for_implicit_object_creation",
        true,
    );
    push_flag(
        &mut r,
        "csharp|inlay_hints.csharp_enable_inlay_hints_for_collection_expressions",
        true,
    );
    r
}

/// Every setting that the user writes reaches the server as the user's
/// value (the last one written for its name), and every default that the
/// user does not write keeps its value; no other names appear.
pub proof fn law_user_settings_override_defaults<V>(
    defaults: Map<Seq<char>, SettingValue<V>>,
    user: Seq<(String, V)>,
)
    ensures
        ({
            let merged = defaults.union_prefer_right(user_map(Some(user)));
            &&& forall|k: Seq<char>| #[trigger]
                settings_map(user).contains_key(k) ==> merged.contains_key(k) && merged[k]
                    == SettingValue::User(settings_map(user)[k])
            &&& forall|k: Seq<char>|
                !settings_map(user).contains_key(k) && #[trigger] defaults.contains_key(k)
                    ==> merged.contains_key(k) && merged[k] == defaults[k]
            &&& merged.dom() == defaults.dom() + setting_names(user)
        }),
{
    lemma_user_values_map(user);
    lemma_settings_map_dom(user);
    let merged = defaults.union_prefer_right(user_map(Some(user)));
    assert(merged.dom() =~= defaults.dom() + setting_names(user));
}

/// Where the user does not set it, a setting keeps the Roslyn default:
/// Razor cohosting on, the references and tests code lenses (which the
/// editor cannot run) off for C# and for Razor, and every inlay hint on.
pub open spec fn default_holds<V>(user: Option<Seq<(String, V)>>, name: Seq<char>, on: bool) -> bool {
    !user_map(user).contains_key(name) ==> {
        let merged = roslyn_defaults::<V>().union_prefer_right(user_map(user));
        merged.contains_key(name) && merged[name] == SettingValue::<V>::Flag(on)
    }
}

/// The Roslyn defaults, for any user settings (none among them): each code
/// lens that shows up in the editor as an unknown command is off, Razor
/// cohosting is on, and each inlay hint is on; a user value for a name
/// replaces its default.
pub proof fn law_roslyn_defaults<V>(user: Option<Seq<(String, V)>>)
    ensures
        default_holds(user, "razor|language_server.cohosting_enabled"@, true),
        default_holds(user, "csharp|code_lens.dotnet_enable_references_code_lens"@, false),
        default_holds(user, "csharp|code_lens.dotnet_enable_tests_code_lens"@, false),
        default_holds(user, "razor|code_lens.dotnet_enable_references_code_lens"@, false),
        default_holds(user, "razor|code_lens.dotnet_enable_tests_code_lens"@, false),
        default_holds(user, "csharp|inlay_hints.dotnet_enable_inlay_hints_for_parameters"@, true),
        default_holds(user, "csharp|inlay_hints.dotnet_enable_inlay_hints_for_literal_parameters"@, true),
        default_holds(user, "csharp|inlay_hints.dotnet_enable_inlay_hints_for_indexer_parameters"@, true),
        default_holds(user, "csharp|inlay_hints.dotnet_enable_inlay_hints_for_object_creation_parameters"@, true),
        default_holds(user, "csharp|inlay_hints.dotnet_enable_inlay_hints_for_other_parameters"@, true),
        default_holds(user, "csharp|inlay_hints.csharp_enable_inlay_hints_for_types"@, true),
        default_holds(user, "csharp|inlay_hints.csharp_enable_inlay_hints_for_implicit_variable_types"@, true),
        default_holds(user, "csharp|inlay_hints.csharp_enable_inlay_hints_for_lambda_parameter_types"@, true),
        default_holds(user, "csharp|inlay_hints.csharp_enable_inlay_hints_for_implicit_object_creation"@, true),
        default_holds(user, "csharp|inlay_hints.csharp_enable_inlay_hints_for_collection_expressions"@, true),
{
    reveal_strlit("razor|language_server.cohosting_enabled");
    reveal_strlit("csharp|code_lens.dotnet_enable_references_code_lens");
    reveal_strlit("csharp|code_lens.dotnet_enable_tests_code_lens");
    reveal_strlit("razor|code_lens.dotnet_enable_references_code_lens");
    reveal_strlit("razor|code_lens.dotnet_enable_tests_code_lens");
    reveal_strlit("csharp|inlay_hints.dotnet_enable_inlay_hints_for_parameters");
    reveal_strlit("csharp|inlay_hints.dotnet_enable_inlay_hints_for_literal_parameters");
    reveal_strlit("csharp|inlay_hints.dotnet_enable_inlay_hints_for_indexer_parameters");
    reveal_strlit("csharp|inlay_hints.dotnet_enable_inlay_hints_for_object_creation_parameters");
    reveal_strlit("csharp|inlay_hints.dotnet_enable_inlay_hints_for_other_parameters");
    reveal_strlit("csharp|inlay_hints.csharp_enable_inlay_hints_for_types");
    reveal_strlit("csharp|inlay_hints.csharp_enable_inlay_hints_for_implicit_variable_types");
    reveal_strlit("csharp|inlay_hints.csharp_enable_inlay_hints_for_lambda_parameter_types");
    reveal_strlit("csharp|inlay_hints.csharp_enable_inlay_hints_for_implicit_object_creation");
    reveal_strlit("csharp|inlay_hints.csharp_enable_inlay_hints_for_collection_expressions");
    let a = "csharp|inlay_hints.dotnet_enable_inlay_hints_for_literal_parameters"@;
    let b = "csharp|inlay_hints.dotnet_enable_inlay_hints_for_indexer_parameters"@;
    assert(a[50] != b[50]);
    let c = "csharp|inlay_hints.csharp_enable_inlay_hints_for_lambda_parameter_types"@;
    let d = "csharp|inlay_hints.csharp_enable_inlay_hints_for_collection_expressions"@;
    assert(c[50] != d[50]);
    assert("razor|language_server.cohosting_enabled"@.len() != "csharp|code_lens.dotnet_enable_references_code_lens"@.len());
    assert("razor|language_server.cohosting_enabled"@.len() != "csharp|code_lens.dotnet_enable_tests_code_lens"@.len());
    assert("razor|language_server.cohosting_enabled"@.len() != "razor|code_lens.dotnet_enable_references_code_lens"@.len());
    assert("razor|language_server.cohosting_enabled"@.len() != "razor|code_lens.dotnet_enable_tests_code_lens"@.len());
    assert("razor|language_server.cohosting_enabled"@.len() != "csharp|inlay_hints.dotnet_enable_inlay_hints_for_parameters"@.len());
    assert("razor|language_server.cohosting_enabled"@.len() != "csharp|inlay_hints.dotnet_enable_inlay_hints_for_literal_parameters"@.len());
    assert("razor|language_server.cohosting_enabled"@.len() != "csharp|inlay_hints.dotnet_enable_inlay_hints_for_indexer_parameters"@.len());
    assert("razor|language_server.cohosting_enabled"@.len() != "csharp|inlay_hints.dotnet_enable_inlay_hints_for_object_creation_parameters"@.len());
    assert("razor|language_server.cohosting_enabled"@.len() != "csharp|inlay_hints.dotnet_enable_inlay_hints_for_other_parameters"@.len());
    assert("razor|language_server.cohosting_enabled"@.len() != "csharp|inlay_hints.csharp_enable_inlay_hints_for_types"@.len());
    assert("razor|language_server.cohosting_enabled"@.len() != "csharp|inlay_hints.csharp_enable_inlay_hints_for_implicit_variable_types"@.len());
    assert("razor|language_server.cohosting_enabled"@.len() != "csharp|inlay_hints.csharp_enable_inlay_hints_for_lambda_parameter_types"@.len());
    assert("razor|language_server.cohosting_enabled"@.len() != "csharp|inlay_hints.csharp_enable_inlay_hints_for_implicit_object_creation"@.len());
    assert("razor|language_server.cohosting_enabled"@.len() != "csharp|inlay_hints.csharp_enable_inlay_hints_for_collection_expressions"@.len());
    assert("csharp|code_lens.dotnet_enable_references_code_lens"@.len() != "csharp|code_lens.dotnet_enable_tests_code_lens"@.len());
    assert("csharp|code_lens.dotnet_enable_references_code_lens"@.len() != "razor|code_lens.dotnet_enable_references_code_lens"@.len());
    assert("csharp|code_lens.dotnet_enable_references_code_lens"@.len() != "razor|code_lens.dotnet_enable_tests_code_lens"@.len());
    assert("csharp|code_lens.dotnet_enable_references_code_lens"@.len() != "csharp|inlay_hints.dotnet_enable_inlay_hints_for_parameters"@.len());
    assert("csharp|code_lens.dotnet_enable_references_code_lens"@.len() != "csharp|inlay_hints.dotnet_enable_inlay_hints_for_literal_parameters"@.len());
    assert("csharp|code_lens.dotnet_enable_references_code_lens"@.len() != "csharp|inlay_hints.dotnet_enable_inlay_hints_for_indexer_parameters"@.len());
    assert("csharp|code_lens.dotnet_enable_references_code_lens"@.len() != "csharp|inlay_hints.dotnet_enable_inlay_hints_for_object_creation_parameters"@.len());
    assert("csharp|code_lens.dotnet_enable_references_code_lens"@.len() != "csharp|inlay_hints.dotnet_enable_inlay_hints_for_other_parameters"@.len());
    assert("csharp|code_lens.dotnet_enable_references_code_lens"@.len() != "csharp|inlay_hints.csharp_enable_inlay_hints_for_types"@.len());
    assert("csharp|code_lens.dotnet_enable_references_code_lens"@.len() != "csharp|inlay_hints.csharp_enable_inlay_hints_for_implicit_variable_types"@.len());
    assert("csharp|code_lens.dotnet_enable_references_code_lens"@.len() != "csharp|inlay_hints.csharp_enable_inlay_hints_for_lambda_parameter_types"@.len());
    assert("csharp|code_lens.dotnet_enable_references_code_lens"@.len() != "csharp|inlay_hints.csharp_enable_inlay_hints_for_implicit_object_creation"@.len());
    assert("csharp|code_lens.dotnet_enable_references_code_lens"@.len() != "csharp|inlay_hints.csharp_enable_inlay_hints_for_collection_expressions"@.len());
}

/// A settings object as the server reads it: each default flag written as
/// the value that `flag` makes of it, each user value as the user wrote it.
pub open spec fn written_values<V>(
    m: Map<Seq<char>, SettingValue<V>>,
    flag: spec_fn(bool) -> V,
) -> Map<Seq<char>, V> {
    m.map_values(
        |s: SettingValue<V>|
            match s {
                SettingValue::Flag(b) => flag(b),
                SettingValue::User(v) => v,
            },
    )
}

/// Transforming the Roslyn settings a second time changes nothing: where
/// `again` is the object that the first transform wrote (in any order of
/// its pairs), the second transform writes that object once more.
pub proof fn law_roslyn_settings_transform_is_idempotent<V>(
    user: Option<Seq<(String, V)>>,
    again: Seq<(String, V)>,
    flag: spec_fn(bool) -> V,
)
    requires
        settings_map(again) == written_values(
            roslyn_defaults::<V>().union_prefer_right(user_map(user)),
            flag,
        ),
    ensures
        written_values(roslyn_defaults::<V>().union_prefer_right(user_map(Some(again))), flag)
            == settings_map(again),
{
    let first = roslyn_defaults::<V>().union_prefer_right(user_map(user));
    let second = roslyn_defaults::<V>().union_prefer_right(user_map(Some(again)));
    lemma_user_values_map(again);
    assert(settings_map(again).dom() == first.dom());
    assert(second.dom() =~= first.dom());
    assert forall|k: Seq<char>| #[trigger] second.contains_key(k) implies second[k]
        == SettingValue::User(settings_map(again)[k]) by {
        assert(settings_map(again).contains_key(k));
    }
    assert(written_values(second, flag) =~= settings_map(again));
}

} // verus!

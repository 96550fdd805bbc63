//! The camera's settings, and listing them all under dotted keys.

use vstd::prelude::*;

use crate::text::{after_last, free_of, lemma_after_last_joined};
use crate::websocket::scheme::{
    CameraConfig, ConfigSetting, ConfigValue, ValidConfigValueRange, ValidConfigValues,
};

verus! {

/// What every setting of the camera says of itself.
#[derive(Debug, Clone, PartialEq, Eq)]
pub struct WidgetBase {
    pub name: String,
    pub label: String,
    pub info: String,
    pub readonly: bool,
}

/// A group of settings and of further groups.
#[derive(Debug)]
pub struct GroupWidget {
    pub name: String,
    pub children: Vec<Widget>,
}

/// A node of the camera's tree of settings. The numbers of a range are held by their bits
/// (IEEE 754, single precision).
#[derive(Debug)]
pub enum Widget {
    Group(GroupWidget),
    Text { base: WidgetBase, value: String },
    Range { base: WidgetBase, value: u32, range: ValidConfigValueRange },
    Toggle { base: WidgetBase, toggled: Option<bool> },
    Radio { base: WidgetBase, choice: String, choices: Vec<String> },
    Button { base: WidgetBase },
    Date { base: WidgetBase, timestamp: i32 },
}

/// A text, or nothing where it is empty.
pub open spec fn nonempty(text: String) -> Option<String> {
    if text@.len() == 0 {
        None
    } else {
        Some(text)
    }
}

/// The setting of a widget with these base data.
pub open spec fn setting_of(
    base: WidgetBase,
    value: ConfigValue,
    accepted_values: ValidConfigValues,
) -> ConfigSetting {
    ConfigSetting {
        name: base.name,
        label: nonempty(base.label),
        info: nonempty(base.info),
        readonly: base.readonly,
        value,
        accepted_values,
    }
}

/// The setting that a widget makes, unless it is a group.
pub open spec fn leaf_setting(widget: Widget) -> Option<ConfigSetting> {
    match widget {
        Widget::Group(_) => None,
        Widget::Text { base, value } => Some(
            setting_of(base, ConfigValue::Str(value), ValidConfigValues::Text),
        ),
        Widget::Range { base, value, range } => Some(
            setting_of(base, ConfigValue::F32(value), ValidConfigValues::Range(range)),
        ),
        Widget::Toggle { base, toggled } => Some(
            setting_of(
                base,
                ConfigValue::Bool(toggled == Some(true)),
                ValidConfigValues::Toggle,
            ),
        ),
        Widget::Radio { base, choice, choices } => Some(
            setting_of(base, ConfigValue::Str(choice), ValidConfigValues::List(choices)),
        ),
        Widget::Button { base } => Some(
            setting_of(base, ConfigValue::ButtonPress, ValidConfigValues::ButtonPress),
        ),
        Widget::Date { base, timestamp } => Some(
            setting_of(base, ConfigValue::Int(timestamp as i64), ValidConfigValues::Date),
        ),
    }
}

/// A name under a path: the two joined by a dot.
pub open spec fn dotted(path: Seq<char>, name: Seq<char>) -> Seq<char> {
    path.push('.') + name
}

/// The path of a group that stands under `prefix`: at the root its own name.
pub open spec fn group_path(prefix: Seq<char>, name: Seq<char>) -> Seq<char> {
    if prefix.len() == 0 {
        name
    } else {
        dotted(prefix, name)
    }
}

/// The keys and settings of a group that stands under `prefix`, depth first.
pub open spec fn group_entries(group: GroupWidget, prefix: Seq<char>) -> Seq<
    (Seq<char>, ConfigSetting),
>
    decreases group,
{
    children_entries(group.children@, group_path(prefix, group.name@))
}

/// The keys and settings of the children of a group with this path.
pub open spec fn children_entries(children: Seq<Widget>, path: Seq<char>) -> Seq<
    (Seq<char>, ConfigSetting),
>
    decreases children,
{
    if children.len() == 0 {
        Seq::empty()
    } else {
        let earlier = children_entries(children.drop_last(), path);
        let last = children[children.len() - 1];
        match leaf_setting(last) {
            None => earlier + group_entries(last->Group_0, path),
            Some(setting) => earlier.push((dotted(path, setting.name@), setting)),
        }
    }
}

/// `config` with the entries put in one after the other.
pub open spec fn overlaid(
    config: Map<Seq<char>, ConfigSetting>,
    entries: Seq<(Seq<char>, ConfigSetting)>,
) -> Map<Seq<char>, ConfigSetting>
    decreases entries.len(),
{
    if entries.len() == 0 {
        config
    } else {
        overlaid(config, entries.drop_last()).insert(entries.last().0, entries.last().1)
    }
}

/// Putting in two runs of entries is putting in the first and then the second.
proof fn lemma_overlaid_concat(
    config: Map<Seq<char>, ConfigSetting>,
    first: Seq<(Seq<char>, ConfigSetting)>,
    second: Seq<(Seq<char>, ConfigSetting)>,
)
    ensures
        overlaid(config, first + second) == overlaid(overlaid(config, first), second),
    decreases second.len(),
{
    if second.len() == 0 {
        assert(first + second =~= first);
    } else {
        lemma_overlaid_concat(config, first, second.drop_last());
        assert((first + second).drop_last() =~= first + second.drop_last());
    }
}

/// A name under a path.
fn join_dotted(path: &str, name: &str) -> (key: String)
    ensures
        key@ == dotted(path@, name@),
{
    proof {
        reveal_strlit(".");
    }
    let mut key = path.to_string();
    key.append(".");
    key.append(name);
    assert(key@ =~= dotted(path@, name@));
    key
}

/// A text, or nothing where it is empty.
fn keep_nonempty(text: String) -> (kept: Option<String>)
    ensures
        kept == nonempty(text),
{
    if text.as_str().is_empty() {
        None
    } else {
        Some(text)
    }
}

/// The setting of a widget with these base data.
fn make_setting(
    base: WidgetBase,
    value: ConfigValue,
    accepted_values: ValidConfigValues,
) -> (setting: ConfigSetting)
    ensures
        setting == setting_of(base, value, accepted_values),
{
    ConfigSetting {
        name: base.name,
        label: keep_nonempty(base.label),
        info: keep_nonempty(base.info),
        readonly: base.readonly,
        value,
        accepted_values,
    }
}

/// Puts the setting of a widget that is no group under its key.
fn put_setting(target: &mut CameraConfig, path: &str, setting: ConfigSetting)
    requires
        old(target).wf(),
    ensures
        final(target).wf(),
        final(target)@ == old(target)@.insert(dotted(path@, setting.name@), setting),
{
    let key = join_dotted(path, setting.name.as_str());
    target.insert(key, setting);
}

/// Lists the settings of a group that stands under `prefix`, and of the groups in it, each
/// under the dotted path of names that leads to it. Of two settings with one key the
/// later one stays.
pub fn unpack_camera_config(group: GroupWidget, target: &mut CameraConfig, prefix: &str)
    requires
        old(target).wf(),
    ensures
        final(target).wf(),
        final(target)@ == overlaid(old(target)@, group_entries(group, prefix@)),
    decreases group,
{
    let ghost kids = group.children@;
    let path = if prefix.is_empty() {
        group.name
    } else {
        join_dotted(prefix, group.name.as_str())
    };
    for child in it: group.children
        invariant
            it.seq() == kids,
            kids == group.children@,
            path@ == group_path(prefix@, group.name@),
            target.wf(),
            target@ == overlaid(old(target)@, children_entries(kids.take(it.index()), path@)),
    {
        let ghost i = it.index();
        let ghost earlier = children_entries(kids.take(i), path@);
        let ghost widget = child;
        proof {
            assert(kids.take(i + 1).drop_last() =~= kids.take(i));
            assert(kids.take(i + 1)[i] == widget);
            lemma_overlaid_concat(old(target)@, earlier, group_entries(widget->Group_0, path@));
        }
        match child {
            Widget::Group(group) => {
                unpack_camera_config(group, target, path.as_str());
            },
            Widget::Text { base, value } => {
                let setting = make_setting(base, ConfigValue::from(value), ValidConfigValues::Text);
                put_setting(target, path.as_str(), setting);
            },
            Widget::Range { base, value, range } => {
                let setting = make_setting(
                    base,
                    ConfigValue::F32(value),
                    ValidConfigValues::Range(range),
                );
                put_setting(target, path.as_str(), setting);
            },
            Widget::Toggle { base, toggled } => {
                let setting = make_setting(
                    base,
                    ConfigValue::from(toggled.unwrap_or(false)),
                    ValidConfigValues::Toggle,
                );
                put_setting(target, path.as_str(), setting);
            },
            Widget::Radio { base, choice, choices } => {
                let setting = make_setting(
                    base,
                    ConfigValue::from(choice),
                    ValidConfigValues::List(choices),
                );
                put_setting(target, path.as_str(), setting);
            },
            Widget::Button { base } => {
                let setting = make_setting(
                    base,
                    ConfigValue::ButtonPress,
                    ValidConfigValues::ButtonPress,
                );
                put_setting(target, path.as_str(), setting);
            },
            Widget::Date { base, timestamp } => {
                let setting = make_setting(
                    base,
                    ConfigValue::from(timestamp as i64),
                    ValidConfigValues::Date,
                );
                put_setting(target, path.as_str(), setting);
            },
        }
        proof {
            if let Some(setting) = leaf_setting(widget) {
                let pushed = earlier.push((dotted(path@, setting.name@), setting));
                assert(pushed.drop_last() =~= earlier);
            }
        }
    }
    assert(kids.take(kids.len() as int) =~= kids);
}

/// All settings of a tree.
impl From<GroupWidget> for CameraConfig {
    fn from(group_widget: GroupWidget) -> (config: CameraConfig)
        ensures
            config.wf(),
            config@ == listed_config(group_widget),
    {
        let mut res = CameraConfig::default();
        proof {
            reveal_strlit("");
            assert(""@ =~= Seq::<char>::empty());
        }
        unpack_camera_config(group_widget, &mut res, "");
        res
    }
}

impl vstd::std_specs::convert::FromSpecImpl<GroupWidget> for CameraConfig {
    open spec fn obeys_from_spec() -> bool {
        false
    }

    open spec fn from_spec(group_widget: GroupWidget) -> CameraConfig {
        arbitrary()
    }
}

/// What the settings of a whole tree are listed as.
pub open spec fn listed_config(root: GroupWidget) -> Map<Seq<char>, ConfigSetting> {
    overlaid(Map::empty(), group_entries(root, Seq::empty()))
}

/// An entry stands under a key that is a path, a dot and the setting's own name.
pub open spec fn ends_in_own_name(entry: (Seq<char>, ConfigSetting)) -> bool {
    exists|path: Seq<char>| entry.0 == #[trigger] dotted(path, entry.1.name@)
}

/// The entries of a group are those of its children under its path.
proof fn lemma_group_entries(group: GroupWidget, prefix: Seq<char>)
    ensures
        group_entries(group, prefix) == children_entries(
            group.children@,
            group_path(prefix, group.name@),
        ),
{
}

proof fn lemma_children_keys(children: Seq<Widget>, path: Seq<char>)
    ensures
        forall|i: int|
            0 <= i < children_entries(children, path).len() ==> #[trigger] ends_in_own_name(
                children_entries(children, path)[i],
            ),
    decreases children,
{
    if children.len() > 0 {
        let earlier = children_entries(children.drop_last(), path);
        let last = children[children.len() - 1];
        lemma_children_keys(children.drop_last(), path);
        match leaf_setting(last) {
            None => {
                let group = last->Group_0;
                lemma_children_keys(group.children@, group_path(path, group.name@));
                let all = children_entries(children, path);
                assert forall|i: int| 0 <= i < all.len() implies #[trigger] ends_in_own_name(
                    all[i],
                ) by {
                    if i < earlier.len() {
                        assert(ends_in_own_name(earlier[i]));
                    } else {
                        lemma_group_entries(group, path);
                        assert(all[i] == group_entries(group, path)[i - earlier.len()]);
                        assert(ends_in_own_name(group_entries(group, path)[i - earlier.len()]));
                    }
                }
            },
            Some(setting) => {
                let all = children_entries(children, path);
                assert forall|i: int| 0 <= i < all.len() implies #[trigger] ends_in_own_name(
                    all[i],
                ) by {
                    if i < earlier.len() {
                        assert(ends_in_own_name(earlier[i]));
                    } else {
                        assert(all[i].0 == dotted(path, setting.name@));
                    }
                }
            },
        }
    }
}

/// What stands under a key was put there by an entry with that key.
proof fn lemma_overlaid_source(
    config: Map<Seq<char>, ConfigSetting>,
    entries: Seq<(Seq<char>, ConfigSetting)>,
    key: Seq<char>,
)
    requires
        overlaid(config, entries).contains_key(key),
    ensures
        (config.contains_key(key) && overlaid(config, entries)[key] == config[key]) || exists|i: int|
            0 <= i < entries.len() && #[trigger] entries[i] == (
                key,
                overlaid(config, entries)[key],
            ),
    decreases entries.len(),
{
    if entries.len() > 0 {
        if entries.last().0 == key {
            assert(entries[entries.len() - 1] == (key, overlaid(config, entries)[key]));
        } else {
            lemma_overlaid_source(config, entries.drop_last(), key);
            if !(config.contains_key(key) && overlaid(config, entries)[key] == config[key]) {
                let i = choose|i: int|
                    0 <= i < entries.drop_last().len() && #[trigger] entries.drop_last()[i] == (
                        key,
                        overlaid(config, entries.drop_last())[key],
                    );
                assert(entries[i] == (key, overlaid(config, entries)[key]));
            }
        }
    }
}

/// A key that was listed leads back to the name of its widget: the part behind the last
/// dot, by which a setting is looked up when it is changed, is the name of the setting,
/// for every setting whose name has no dot in it.
pub proof fn law_listed_key_names_its_widget(root: GroupWidget, key: Seq<char>)
    requires
        listed_config(root).contains_key(key),
        free_of(listed_config(root)[key].name@, '.'),
    ensures
        after_last(key, '.') == listed_config(root)[key].name@,
{
    let entries = group_entries(root, Seq::empty());
    lemma_overlaid_source(Map::empty(), entries, key);
    let i = choose|i: int|
        0 <= i < entries.len() && #[trigger] entries[i] == (key, listed_config(root)[key]);
    lemma_children_keys(root.children@, group_path(Seq::empty(), root.name@));
    lemma_group_entries(root, Seq::empty());
    assert(ends_in_own_name(entries[i]));
    let path = choose|path: Seq<char>|
        entries[i].0 == #[trigger] dotted(path, entries[i].1.name@);
    lemma_after_last_joined(path, '.', entries[i].1.name@);
}

proof fn lemma_overlaid_keeps(
    config: Map<Seq<char>, ConfigSetting>,
    entries: Seq<(Seq<char>, ConfigSetting)>,
    i: int,
)
    requires
        0 <= i < entries.len(),
    ensures
        overlaid(config, entries).contains_key(entries[i].0),
        (forall|j: int| i < j < entries.len() ==> (#[trigger] entries[j]).0 != entries[i].0)
            ==> overlaid(config, entries)[entries[i].0] == entries[i].1,
    decreases entries.len(),
{
    if i < entries.len() - 1 {
        lemma_overlaid_keeps(config, entries.drop_last(), i);
        if forall|j: int| i < j < entries.len() ==> (#[trigger] entries[j]).0 != entries[i].0 {
            assert(entries[entries.len() - 1].0 != entries[i].0);
            assert forall|j: int| i < j < entries.drop_last().len() implies (
            #[trigger] entries.drop_last()[j]).0 != entries.drop_last()[i].0 by {
                assert(entries[j].0 != entries[i].0);
            }
        }
    }
}

/// No setting of the tree is left out of the list: each one's key is listed, and with it
/// the setting itself, unless a later setting has the same key.
pub proof fn law_every_setting_is_listed(root: GroupWidget, i: int)
    requires
        0 <= i < group_entries(root, Seq::empty()).len(),
    ensures
        ({
            let entries = group_entries(root, Seq::empty());
            &&& listed_config(root).contains_key(entries[i].0)
            &&& (forall|j: int| i < j < entries.len() ==> (#[trigger] entries[j]).0 != entries[i].0)
                ==> listed_config(root)[entries[i].0] == entries[i].1
        }),
{
    lemma_overlaid_keeps(Map::empty(), group_entries(root, Seq::empty()), i);
}

proof fn lemma_children_keys_start(children: Seq<Widget>, path: Seq<char>, root: Seq<char>)
    requires
        root.len() > 0,
        path == root || root.push('.').is_prefix_of(path),
    ensures
        forall|i: int|
            0 <= i < children_entries(children, path).len() ==> root.push('.').is_prefix_of(
                (#[trigger] children_entries(children, path)[i]).0,
            ),
    decreases children,
{
    if children.len() > 0 {
        let all = children_entries(children, path);
        let earlier = children_entries(children.drop_last(), path);
        let last = children[children.len() - 1];
        lemma_children_keys_start(children.drop_last(), path, root);
        match leaf_setting(last) {
            None => {
                let group = last->Group_0;
                let inner = group_path(path, group.name@);
                assert(root.push('.').is_prefix_of(inner)) by {
                    assert(inner == path.push('.') + group.name@);
                }
                lemma_children_keys_start(group.children@, inner, root);
                assert forall|i: int| 0 <= i < all.len() implies root.push('.').is_prefix_of(
                    (#[trigger] all[i]).0,
                ) by {
                    if i < earlier.len() {
                        assert(all[i] == earlier[i]);
                    } else {
                        lemma_group_entries(group, path);
                        assert(all[i] == group_entries(group, path)[i - earlier.len()]);
                    }
                }
            },
            Some(setting) => {
                assert forall|i: int| 0 <= i < all.len() implies root.push('.').is_prefix_of(
                    (#[trigger] all[i]).0,
                ) by {
                    if i < earlier.len() {
                        assert(all[i] == earlier[i]);
                    } else {
                        assert(all[i].0 == path.push('.') + setting.name@);
                    }
                }
            },
        }
    }
}

/// Entries under keys that are longer by a path and a dot.
pub open spec fn lengthened(
    path: Seq<char>,
    entries: Seq<(Seq<char>, ConfigSetting)>,
) -> Seq<(Seq<char>, ConfigSetting)> {
    entries.map_values(|entry: (Seq<char>, ConfigSetting)| (dotted(path, entry.0), entry.1))
}

proof fn lemma_children_lengthened(children: Seq<Widget>, prefix: Seq<char>, path: Seq<char>)
    requires
        path.len() > 0,
    ensures
        children_entries(children, dotted(prefix, path)) == lengthened(
            prefix,
            children_entries(children, path),
        ),
    decreases children,
{
    let long = children_entries(children, dotted(prefix, path));
    let short = children_entries(children, path);
    if children.len() == 0 {
        assert(long =~= lengthened(prefix, short));
    } else {
        let last = children[children.len() - 1];
        lemma_children_lengthened(children.drop_last(), prefix, path);
        match leaf_setting(last) {
            None => {
                let group = last->Group_0;
                let inner = group_path(path, group.name@);
                assert(group_path(dotted(prefix, path), group.name@) =~= dotted(prefix, inner));
                lemma_children_lengthened(group.children@, prefix, inner);
                lemma_group_entries(group, path);
                lemma_group_entries(group, dotted(prefix, path));
                assert(long =~= lengthened(prefix, short));
            },
            Some(setting) => {
                assert(dotted(dotted(prefix, path), setting.name@) =~= dotted(
                    prefix,
                    dotted(path, setting.name@),
                ));
                assert(long =~= lengthened(prefix, short));
            },
        }
    }
}

/// A prefix only lengthens the keys of a listing: the settings are the same, in the same
/// order, and each key is the prefix, a dot and the key without it, for a group that has a
/// name.
pub proof fn law_prefix_lengthens_the_keys(group: GroupWidget, prefix: Seq<char>)
    requires
        prefix.len() > 0,
        group.name@.len() > 0,
    ensures
        group_entries(group, prefix) == lengthened(prefix, group_entries(group, Seq::empty())),
{
    lemma_group_entries(group, prefix);
    lemma_group_entries(group, Seq::empty());
    lemma_children_lengthened(group.children@, prefix, group.name@);
}

/// Every listed key starts with the name of the tree's root and a dot, for a root that
/// has a name.
pub proof fn law_listed_keys_start_at_the_root(root: GroupWidget, key: Seq<char>)
    requires
        root.name@.len() > 0,
        listed_config(root).contains_key(key),
    ensures
        root.name@.push('.').is_prefix_of(key),
{
    let entries = group_entries(root, Seq::empty());
    lemma_overlaid_source(Map::empty(), entries, key);
    let i = choose|i: int|
        0 <= i < entries.len() && #[trigger] entries[i] == (key, listed_config(root)[key]);
    lemma_children_keys_start(root.children@, root.name@, root.name@);
    lemma_group_entries(root, Seq::empty());
    assert(root.name@.push('.').is_prefix_of(entries[i].0));
}

/// A setting says what its widget says: its name, whether it can be changed, its label and
/// its info where they are not empty, the value that it holds, and the values that it takes. A
/// toggle that does not know whether it is on counts as off. A group makes no setting.
pub proof fn law_setting_tells_of_its_widget(
    base: WidgetBase,
    text: String,
    bits: u32,
    range: ValidConfigValueRange,
    toggled: Option<bool>,
    choice: String,
    choices: Vec<String>,
    timestamp: i32,
    group: GroupWidget,
)
    ensures
        ({
            let told = ConfigSetting {
                name: base.name,
                label: if base.label@.len() == 0 {
                    None
                } else {
                    Some(base.label)
                },
                info: if base.info@.len() == 0 {
                    None
                } else {
                    Some(base.info)
                },
                readonly: base.readonly,
                value: ConfigValue::ButtonPress,
                accepted_values: ValidConfigValues::ButtonPress,
            };
            &&& leaf_setting(Widget::Button { base }) == Some(told)
            &&& leaf_setting(Widget::Text { base, value: text }) == Some(
                ConfigSetting {
                    value: ConfigValue::Str(text),
                    accepted_values: ValidConfigValues::Text,
                    ..told
                },
            )
            &&& leaf_setting(Widget::Range { base, value: bits, range }) == Some(
                ConfigSetting {
                    value: ConfigValue::F32(bits),
                    accepted_values: ValidConfigValues::Range(range),
                    ..told
                },
            )
            &&& leaf_setting(Widget::Toggle { base, toggled }) == Some(
                ConfigSetting {
                    value: ConfigValue::Bool(toggled is Some && toggled->0),
                    accepted_values: ValidConfigValues::Toggle,
                    ..told
                },
            )
            &&& leaf_setting(Widget::Radio { base, choice, choices }) == Some(
                ConfigSetting {
                    value: ConfigValue::Str(choice),
                    accepted_values: ValidConfigValues::List(choices),
                    ..told
                },
            )
            &&& leaf_setting(Widget::Date { base, timestamp }) == Some(
                ConfigSetting {
                    value: ConfigValue::Int(timestamp as i64),
                    accepted_values: ValidConfigValues::Date,
                    ..told
                },
            )
            &&& leaf_setting(Widget::Group(group)) is None
        }),
{
}

/// The children of a group are listed one after the other: the listing of two runs of
/// children is that of the first and then that of the second.
pub proof fn law_children_are_listed_in_order(
    first: Seq<Widget>,
    second: Seq<Widget>,
    path: Seq<char>,
)
    ensures
        children_entries(first + second, path) == children_entries(first, path) + children_entries(
            second,
            path,
        ),
    decreases second.len(),
{
    let whole = first + second;
    if second.len() == 0 {
        assert(whole =~= first);
        assert(children_entries(second, path) =~= Seq::empty());
    } else {
        law_children_are_listed_in_order(first, second.drop_last(), path);
        assert(whole.drop_last() =~= first + second.drop_last());
        assert(children_entries(whole, path) =~= children_entries(first, path) + children_entries(
            second,
            path,
        ));
    }
}

/// A single child: a widget that is no group is listed once, with its setting, under the path,
/// a dot and its name; a group is listed by its own children, under the path, a dot and its
/// name, or its name alone where the path is empty.
pub proof fn law_child_is_listed_under_its_path(widget: Widget, group: GroupWidget, path: Seq<char>)
    ensures
        leaf_setting(widget) is Some ==> children_entries(seq![widget], path) == seq![
            (path + seq!['.'] + leaf_setting(widget)->0.name@, leaf_setting(widget)->0),
        ],
        children_entries(seq![Widget::Group(group)], path) == children_entries(
            group.children@,
            if path.len() == 0 {
                group.name@
            } else {
                path + seq!['.'] + group.name@
            },
        ),
        group_entries(group, path) == children_entries(
            group.children@,
            if path.len() == 0 {
                group.name@
            } else {
                path + seq!['.'] + group.name@
            },
        ),
{
    lemma_group_entries(group, path);
    assert(path + seq!['.'] + group.name@ =~= dotted(path, group.name@));
    let inner = seq![Widget::Group(group)];
    assert(inner.drop_last() =~= Seq::empty());
    assert(children_entries(inner.drop_last(), path) =~= Seq::empty());
    assert(children_entries(inner, path) =~= group_entries(group, path));
    if leaf_setting(widget) is Some {
        let one = seq![widget];
        let name = leaf_setting(widget)->0.name@;
        assert(path + seq!['.'] + name =~= dotted(path, name));
        assert(one.drop_last() =~= Seq::empty());
        assert(children_entries(one.drop_last(), path) =~= Seq::empty());
        assert(children_entries(one, path) =~= seq![
            (path + seq!['.'] + name, leaf_setting(widget)->0),
        ]);
    }
}

/// A group without groups in it has as many entries as children, and the entry of each child
/// stands at the child's own place.
pub proof fn law_flat_group_lists_each_child(children: Seq<Widget>, path: Seq<char>)
    requires
        forall|i: int| 0 <= i < children.len() ==> !(#[trigger] children[i] is Group),
    ensures
        children_entries(children, path).len() == children.len(),
        forall|i: int|
            #![trigger children[i]]
            0 <= i < children.len() ==> {
                &&& leaf_setting(children[i]) is Some
                &&& children_entries(children, path)[i] == (
                    path + seq!['.'] + leaf_setting(children[i])->0.name@,
                    leaf_setting(children[i])->0,
                )
            },
    decreases children.len(),
{
    if children.len() > 0 {
        let earlier = children.drop_last();
        let last = children[children.len() - 1];
        assert forall|i: int| 0 <= i < earlier.len() implies !(#[trigger] earlier[i] is Group) by {
            assert(earlier[i] == children[i]);
        }
        law_flat_group_lists_each_child(earlier, path);
        assert(!(last is Group));
        law_children_are_listed_in_order(earlier, seq![last], path);
        law_child_is_listed_under_its_path(last, arbitrary(), path);
        assert(earlier + seq![last] =~= children);
        assert forall|i: int|
            #![trigger children[i]]
            0 <= i < children.len() implies leaf_setting(children[i]) is Some && children_entries(
            children,
            path,
        )[i] == (
            path + seq!['.'] + leaf_setting(children[i])->0.name@,
            leaf_setting(children[i])->0,
        ) by {
            if i < earlier.len() {
                assert(earlier[i] == children[i]);
            }
        }
    }
}

/// The way leads from these widgets, by the index of a child at each step, through groups to a
/// widget that is no group.
pub open spec fn leads_to_a_setting(children: Seq<Widget>, way: Seq<int>) -> bool
    decreases way.len(),
{
    &&& way.len() > 0
    &&& 0 <= way[0] < children.len()
    &&& if way.len() == 1 {
        !(children[way[0]] is Group)
    } else {
        children[way[0]] is Group && leads_to_a_setting(
            children[way[0]]->Group_0.children@,
            way.drop_first(),
        )
    }
}

/// The widget at the end of a way.
pub open spec fn widget_along(children: Seq<Widget>, way: Seq<int>) -> Widget
    decreases way.len(),
{
    if way.len() <= 1 {
        children[way[0]]
    } else {
        widget_along(children[way[0]]->Group_0.children@, way.drop_first())
    }
}

/// The name that a widget itself bears, unless it is a group.
pub open spec fn own_name(widget: Widget) -> Seq<char> {
    match widget {
        Widget::Group(group) => group.name@,
        Widget::Text { base, .. } => base.name@,
        Widget::Range { base, .. } => base.name@,
        Widget::Toggle { base, .. } => base.name@,
        Widget::Radio { base, .. } => base.name@,
        Widget::Button { base } => base.name@,
        Widget::Date { base, .. } => base.name@,
    }
}

/// The names on a way, joined by dots behind a path. Behind an empty path a group stands
/// without a dot.
pub open spec fn names_along(path: Seq<char>, children: Seq<Widget>, way: Seq<int>) -> Seq<char>
    decreases way.len(),
{
    let name = own_name(children[way[0]]);
    if way.len() <= 1 {
        path + seq!['.'] + name
    } else {
        names_along(
            if path.len() == 0 {
                name
            } else {
                path + seq!['.'] + name
            },
            children[way[0]]->Group_0.children@,
            way.drop_first(),
        )
    }
}

/// The entry that the widget at the end of a way is listed with.
pub open spec fn entry_along(path: Seq<char>, children: Seq<Widget>, way: Seq<int>) -> (
    Seq<char>,
    ConfigSetting,
) {
    (names_along(path, children, way), leaf_setting(widget_along(children, way))->0)
}

proof fn lemma_way_is_listed(path: Seq<char>, children: Seq<Widget>, way: Seq<int>)
    requires
        leads_to_a_setting(children, way),
    ensures
        leaf_setting(widget_along(children, way)) is Some,
        children_entries(children, path).contains(entry_along(path, children, way)),
    decreases way.len(),
{
    let at = way[0];
    let widget = children[at];
    let before = children.take(at);
    let behind = children.skip(at + 1);
    law_children_are_listed_in_order(before, seq![widget], path);
    law_children_are_listed_in_order(before + seq![widget], behind, path);
    assert(before + seq![widget] + behind =~= children);
    law_child_is_listed_under_its_path(widget, widget->Group_0, path);
    let own = children_entries(seq![widget], path);
    if way.len() == 1 {
        assert(own[0] == entry_along(path, children, way));
        assert(own.contains(entry_along(path, children, way)));
    } else {
        let group = widget->Group_0;
        let inner = if path.len() == 0 {
            group.name@
        } else {
            path + seq!['.'] + group.name@
        };
        lemma_way_is_listed(inner, group.children@, way.drop_first());
        assert(own == children_entries(group.children@, inner));
        assert(entry_along(path, children, way) == entry_along(
            inner,
            group.children@,
            way.drop_first(),
        ));
    }
    let first = children_entries(before, path);
    let last = children_entries(behind, path);
    let i = choose|i: int| 0 <= i < own.len() && own[i] == entry_along(path, children, way);
    assert((first + own + last)[first.len() + i] == own[i]);
}

proof fn lemma_entry_has_its_way(path: Seq<char>, children: Seq<Widget>, i: int) -> (way: Seq<int>)
    requires
        0 <= i < children_entries(children, path).len(),
    ensures
        leads_to_a_setting(children, way),
        children_entries(children, path)[i] == entry_along(path, children, way),
    decreases children,
{
    let earlier = children.drop_last();
    let last = children[children.len() - 1];
    let count = children_entries(earlier, path).len();
    if i < count {
        let way = lemma_entry_has_its_way(path, earlier, i);
        assert(earlier[way[0]] == children[way[0]]);
        way
    } else {
        law_children_are_listed_in_order(earlier, seq![last], path);
        assert(earlier + seq![last] =~= children);
        law_child_is_listed_under_its_path(last, last->Group_0, path);
        match last {
            Widget::Group(group) => {
                let inner = if path.len() == 0 {
                    group.name@
                } else {
                    path + seq!['.'] + group.name@
                };
                let rest = lemma_entry_has_its_way(inner, group.children@, i - count);
                let way = seq![children.len() - 1] + rest;
                assert(way.drop_first() =~= rest);
                way
            },
            _ => seq![children.len() - 1],
        }
    }
}

/// Every widget of a tree that is no group, on whatever way through groups it is reached, is
/// listed under the names on that way joined by dots; it is listed with its own setting unless
/// another widget has the same key.
pub proof fn law_every_widget_of_the_tree_is_listed(root: GroupWidget, way: Seq<int>)
    requires
        leads_to_a_setting(root.children@, way),
    ensures
        ({
            let key = names_along(root.name@, root.children@, way);
            &&& listed_config(root).contains_key(key)
            &&& leaf_setting(widget_along(root.children@, way)) is Some
            &&& (forall|other: Seq<int>|
                #![trigger leads_to_a_setting(root.children@, other)]
                leads_to_a_setting(root.children@, other) && names_along(
                    root.name@,
                    root.children@,
                    other,
                ) == key ==> other == way) ==> listed_config(root)[key] == leaf_setting(
                widget_along(root.children@, way),
            )->0
        }),
{
    let entries = group_entries(root, Seq::empty());
    let key = names_along(root.name@, root.children@, way);
    lemma_group_entries(root, Seq::empty());
    lemma_way_is_listed(root.name@, root.children@, way);
    let i = choose|i: int|
        0 <= i < entries.len() && entries[i] == entry_along(root.name@, root.children@, way);
    law_every_setting_is_listed(root, i);
    lemma_overlaid_source(Map::empty(), entries, key);
    let j = choose|j: int|
        0 <= j < entries.len() && #[trigger] entries[j] == (key, listed_config(root)[key]);
    let source = lemma_entry_has_its_way(root.name@, root.children@, j);
    assert(leads_to_a_setting(root.children@, source));
    assert(names_along(root.name@, root.children@, source) == key);
}

/// Nothing is listed that is not in the tree: each listed key leads back to a widget on some
/// way whose names make the key, and is listed with the setting of that widget.
pub proof fn law_every_listed_key_is_in_the_tree(root: GroupWidget, key: Seq<char>)
    requires
        listed_config(root).contains_key(key),
    ensures
        exists|way: Seq<int>|
            #![trigger leads_to_a_setting(root.children@, way)]
            leads_to_a_setting(root.children@, way) && names_along(root.name@, root.children@, way)
                == key && listed_config(root)[key] == leaf_setting(
                widget_along(root.children@, way),
            )->0,
{
    let entries = group_entries(root, Seq::empty());
    lemma_group_entries(root, Seq::empty());
    lemma_overlaid_source(Map::empty(), entries, key);
    let j = choose|j: int|
        0 <= j < entries.len() && #[trigger] entries[j] == (key, listed_config(root)[key]);
    let way = lemma_entry_has_its_way(root.name@, root.children@, j);
    assert(leads_to_a_setting(root.children@, way));
}

/// Of several entries with one key the last one stays, and what no entry has the key of stays
/// as it was.
pub proof fn law_last_entry_stays(
    config: Map<Seq<char>, ConfigSetting>,
    entries: Seq<(Seq<char>, ConfigSetting)>,
    key: Seq<char>,
    at: int,
)
    ensures
        (0 <= at < entries.len() && entries[at].0 == key && forall|j: int|
            at < j < entries.len() ==> (#[trigger] entries[j]).0 != key) ==> overlaid(
            config,
            entries,
        ).contains_key(key) && overlaid(config, entries)[key] == entries[at].1,
        (forall|j: int| 0 <= j < entries.len() ==> (#[trigger] entries[j]).0 != key) ==> (overlaid(
            config,
            entries,
        ).contains_key(key) <==> config.contains_key(key)) && overlaid(config, entries)[key]
            == config[key],
    decreases entries.len(),
{
    if 0 <= at < entries.len() && entries[at].0 == key && (forall|j: int|
        at < j < entries.len() ==> (#[trigger] entries[j]).0 != key) {
        lemma_overlaid_keeps(config, entries, at);
    }
    if entries.len() > 0 && (forall|j: int|
        0 <= j < entries.len() ==> (#[trigger] entries[j]).0 != key) {
        assert forall|j: int| 0 <= j < entries.drop_last().len() implies (
        #[trigger] entries.drop_last()[j]).0 != key by {
            assert(entries[j].0 != key);
        }
        law_last_entry_stays(config, entries.drop_last(), key, at);
        assert(entries[entries.len() - 1].0 != key);
    }
}


} // verus!

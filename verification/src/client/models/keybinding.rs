//! Keyboard shortcuts of the client and the default set.
use vstd::prelude::*;

verus! {

/// A key with its modifiers.
#[derive(Debug)]
pub struct KeyCombination {
    pub ctrl: bool,
    pub alt: bool,
    pub shift: bool,
    /// The Windows or Command key.
    pub meta: bool,
    /// The key's code, such as "KeyA" or "Enter".
    pub key: String,
}

impl KeyCombination {
    /// The combination as plain values.
    pub open spec fn view_tuple(self) -> (bool, bool, bool, bool, Seq<char>) {
        (self.ctrl, self.alt, self.shift, self.meta, self.key@)
    }

    /// A copy of the combination.
    pub fn copy(&self) -> (r: KeyCombination)
        ensures
            r.view_tuple() == self.view_tuple(),
    {
        KeyCombination {
            ctrl: self.ctrl,
            alt: self.alt,
            shift: self.shift,
            meta: self.meta,
            key: self.key.clone(),
        }
    }
}

impl Clone for KeyCombination {
    fn clone(&self) -> (r: Self)
        ensures
            r.view_tuple() == self.view_tuple(),
    {
        self.copy()
    }
}

/// Shortcuts by command: each entry maps a command to its combination.
/// The map is kept as a list without repeated commands.
pub type Bindings = Vec<(String, KeyCombination)>;

/// The bindings as plain values.
pub open spec fn bindings_view(b: Seq<(String, KeyCombination)>) -> Seq<(Seq<char>, (bool, bool, bool, bool, Seq<char>))> {
    b.map_values(|e: (String, KeyCombination)| (e.0@, e.1.view_tuple()))
}

/// No command appears twice.
pub open spec fn distinct_commands(b: Seq<(String, KeyCombination)>) -> bool {
    forall|i: int, j: int|
        #![trigger b[i], b[j]]
        0 <= i < j < b.len() ==> b[i].0@ != b[j].0@
}

/// A named set of shortcuts to choose from.
#[derive(Debug)]
pub struct KeybindingPreset {
    pub id: String,
    pub name: String,
    pub description: String,
    pub keybindings: Bindings,
}

/// The shortcuts in use and the presets to choose from.
#[derive(Debug)]
pub struct KeybindingsData {
    pub keybindings: Bindings,
    pub presets: Vec<KeybindingPreset>,
}

/// A copy of a list of bindings.
pub fn copy_bindings(b: &Bindings) -> (r: Bindings)
    ensures
        bindings_view(r@) == bindings_view(b@),
{
    let mut r: Bindings = Vec::new();
    let n = b.len();
    for i in 0..n
        invariant
            n == b@.len(),
            r@.len() == i,
            forall|k: int| 0 <= k < i ==> (#[trigger] r@[k]).0@ == b@[k].0@ && r@[k].1.view_tuple()
                == b@[k].1.view_tuple(),
    {
        r.push((b[i].0.clone(), b[i].1.copy()));
    }
    assert(bindings_view(r@) =~= bindings_view(b@));
    r
}

/// The default shortcuts, as (command, key) pairs; each is pressed with
/// Ctrl alone.
pub open spec fn default_bindings() -> Seq<(Seq<char>, Seq<char>)> {
    seq![
        ("global.newNote"@, "KeyN"@),
        ("global.openSearch"@, "KeyK"@),
        ("global.openSettings"@, "Comma"@),
        ("global.toggleSidebar"@, "KeyB"@),
        ("note.save"@, "KeyS"@),
        ("note.find"@, "KeyF"@),
        ("note.closeTab"@, "KeyW"@),
        ("note.togglePreview"@, "KeyD"@),
        ("note.zoomIn"@, "Equal"@),
        ("note.zoomOut"@, "Minus"@),
        ("note.zoomReset"@, "Digit0"@),
    ]
}

/// `b` holds the default shortcuts, in order, each with Ctrl alone.
pub open spec fn is_default_bindings(b: Seq<(String, KeyCombination)>) -> bool {
    &&& b.len() == default_bindings().len()
    &&& forall|i: int|
        #![trigger b[i]]
        0 <= i < b.len() ==> b[i].0@ == default_bindings()[i].0 && b[i].1.view_tuple() == (
            true,
            false,
            false,
            false,
            default_bindings()[i].1,
        )
}

fn ctrl_binding(command: &str, key: &str) -> (r: (String, KeyCombination))
    ensures
        r.0@ == command@,
        r.1.view_tuple() == (true, false, false, false, key@),
{
    (
        command.to_owned(),
        KeyCombination { ctrl: true, alt: false, shift: false, meta: false, key: key.to_owned() },
    )
}

/// The default shortcuts, and one preset ("vscode") holding them.
pub fn get_default_keybindings() -> (r: KeybindingsData)
    ensures
        is_default_bindings(r.keybindings@),
        r.presets@.len() == 1,
        r.presets@[0].id@ == "vscode"@,
        r.presets@[0].name@ == "VSCode 风格"@,
        r.presets@[0].description@ == "类似 VSCode 的快捷键布局"@,
        bindings_view(r.presets@[0].keybindings@) == bindings_view(r.keybindings@),
{
    let mut b: Bindings = Vec::new();
    b.push(ctrl_binding("global.newNote", "KeyN"));
    b.push(ctrl_binding("global.openSearch", "KeyK"));
    b.push(ctrl_binding("global.openSettings", "Comma"));
    b.push(ctrl_binding("global.toggleSidebar", "KeyB"));
    b.push(ctrl_binding("note.save", "KeyS"));
    b.push(ctrl_binding("note.find", "KeyF"));
    b.push(ctrl_binding("note.closeTab", "KeyW"));
    b.push(ctrl_binding("note.togglePreview", "KeyD"));
    b.push(ctrl_binding("note.zoomIn", "Equal"));
    b.push(ctrl_binding("note.zoomOut", "Minus"));
    b.push(ctrl_binding("note.zoomReset", "Digit0"));
    let preset = KeybindingPreset {
        id: "vscode".to_owned(),
        name: "VSCode 风格".to_owned(),
        description: "类似 VSCode 的快捷键布局".to_owned(),
        keybindings: copy_bindings(&b),
    };
    let mut presets: Vec<KeybindingPreset> = Vec::new();
    presets.push(preset);
    KeybindingsData { keybindings: b, presets }
}

/// The default shortcuts name each command once.
pub proof fn lemma_default_bindings_distinct(b: Seq<(String, KeyCombination)>)
    requires
        is_default_bindings(b),
    ensures
        distinct_commands(b),
{
    reveal_strlit("global.newNote");
    reveal_strlit("global.openSearch");
    reveal_strlit("global.openSettings");
    reveal_strlit("global.toggleSidebar");
    reveal_strlit("note.save");
    reveal_strlit("note.find");
    reveal_strlit("note.closeTab");
    reveal_strlit("note.togglePreview");
    reveal_strlit("note.zoomIn");
    reveal_strlit("note.zoomOut");
    reveal_strlit("note.zoomReset");
    assert forall|i: int, j: int| 0 <= i < j < b.len() implies (#[trigger] b[i]).0@ != (#[trigger] b[j]).0@ by {
        let d = default_bindings();
        assert(b[i].0@ == d[i].0);
        assert(b[j].0@ == d[j].0);
        assert(d[i].0.len() != d[j].0.len() || d[i].0 != d[j].0) by {
            if d[i].0.len() == d[j].0.len() {
                let k = if d[i].0[0] != d[j].0[0] { 0int } else { 7int };
                assert(d[i].0[k] != d[j].0[k] || d[i].0[10] != d[j].0[10] || d[i].0[11] != d[j].0[11]
                    || d[i].0[13] != d[j].0[13] || d[i].0[5] != d[j].0[5]);
            }
        }
    }
}

} // verus!

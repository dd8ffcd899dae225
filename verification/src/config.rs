//! The key configuration: which character stands for which action.

use vstd::hash_map::StringHashMap;
use vstd::prelude::*;

verus! {

/// An action that a character of the configuration stands for.
#[derive(Clone, Copy, Debug, PartialEq, Eq, Structural)]
pub enum BoundAction {
    New,
    Find,
    Copy,
    Delete,
    Save,
    Edit,
}

/// The name under which the configuration holds the character of an
/// action.
pub open spec fn key_name(action: BoundAction) -> Seq<char> {
    match action {
        BoundAction::New => "KEY_NEW"@,
        BoundAction::Find => "KEY_FIND"@,
        BoundAction::Copy => "KEY_COPY"@,
        BoundAction::Delete => "KEY_DELETE"@,
        BoundAction::Save => "KEY_SAVESNIPPET"@,
        BoundAction::Edit => "KEY_EDIT"@,
    }
}

/// The configuration as it is stored: characters by name.
pub struct SnippyConfig {
    pub keys: StringHashMap<char>,
}

/// The names and characters of the configuration that is used where none
/// is stored.
pub open spec fn default_keys() -> Map<Seq<char>, char> {
    Map::<Seq<char>, char>::empty().insert(key_name(BoundAction::New), 'n').insert(
        key_name(BoundAction::Find),
        'f',
    ).insert(key_name(BoundAction::Save), 's').insert(key_name(BoundAction::Copy), 'c').insert(
        key_name(BoundAction::Delete),
        'x',
    )
}

impl Default for SnippyConfig {
    fn default() -> (config: SnippyConfig)
        ensures
            config.keys@ == default_keys(),
    {
        let mut keys: StringHashMap<char> = StringHashMap::new();
        keys.insert("KEY_NEW".to_owned(), 'n');
        keys.insert("KEY_FIND".to_owned(), 'f');
        keys.insert("KEY_SAVESNIPPET".to_owned(), 's');
        keys.insert("KEY_COPY".to_owned(), 'c');
        keys.insert("KEY_DELETE".to_owned(), 'x');
        SnippyConfig { keys }
    }
}

/// The characters of the actions, looked up once.
#[derive(Clone, Copy, Debug, PartialEq, Eq, Structural)]
pub struct KeyBindings {
    pub new: char,
    pub find: char,
    pub copy: char,
    pub delete: char,
    pub save: char,
    /// The character that opens the selected snippet for editing. Without
    /// one the enter key does.
    pub edit: Option<char>,
}

/// Why a configuration cannot be used.
#[derive(Clone, Copy, Debug, PartialEq, Eq, Structural)]
pub enum ConfigError {
    /// The configuration has no character for the action.
    MissingKey(BoundAction),
}

/// The character that the keys hold for an action, if any.
pub open spec fn bound(keys: Map<Seq<char>, char>, action: BoundAction) -> Option<char> {
    if keys.contains_key(key_name(action)) {
        Some(keys[key_name(action)])
    } else {
        None
    }
}

/// What a configuration resolves to. Every action but editing needs a
/// character; the first that has none, in the order new, find, copy,
/// delete, save, is the error.
pub open spec fn resolved(keys: Map<Seq<char>, char>) -> Result<KeyBindings, ConfigError> {
    if bound(keys, BoundAction::New) is None {
        Err(ConfigError::MissingKey(BoundAction::New))
    } else if bound(keys, BoundAction::Find) is None {
        Err(ConfigError::MissingKey(BoundAction::Find))
    } else if bound(keys, BoundAction::Copy) is None {
        Err(ConfigError::MissingKey(BoundAction::Copy))
    } else if bound(keys, BoundAction::Delete) is None {
        Err(ConfigError::MissingKey(BoundAction::Delete))
    } else if bound(keys, BoundAction::Save) is None {
        Err(ConfigError::MissingKey(BoundAction::Save))
    } else {
        Ok(
            KeyBindings {
                new: bound(keys, BoundAction::New).unwrap(),
                find: bound(keys, BoundAction::Find).unwrap(),
                copy: bound(keys, BoundAction::Copy).unwrap(),
                delete: bound(keys, BoundAction::Delete).unwrap(),
                save: bound(keys, BoundAction::Save).unwrap(),
                edit: bound(keys, BoundAction::Edit),
            },
        )
    }
}

impl SnippyConfig {
    /// The character that the configuration holds for an action.
    pub fn key_for(&self, action: BoundAction) -> (key: Option<char>)
        ensures
            key == bound(self.keys@, action),
    {
        let found = match action {
            BoundAction::New => self.keys.get("KEY_NEW"),
            BoundAction::Find => self.keys.get("KEY_FIND"),
            BoundAction::Copy => self.keys.get("KEY_COPY"),
            BoundAction::Delete => self.keys.get("KEY_DELETE"),
            BoundAction::Save => self.keys.get("KEY_SAVESNIPPET"),
            BoundAction::Edit => self.keys.get("KEY_EDIT"),
        };
        match found {
            Some(key) => Some(*key),
            None => None,
        }
    }

    /// Looks the characters of all actions up.
    pub fn bindings(&self) -> (bindings: Result<KeyBindings, ConfigError>)
        ensures
            bindings == resolved(self.keys@),
    {
        let new = match self.key_for(BoundAction::New) {
            Some(key) => key,
            None => { return Err(ConfigError::MissingKey(BoundAction::New)); },
        };
        let find = match self.key_for(BoundAction::Find) {
            Some(key) => key,
            None => { return Err(ConfigError::MissingKey(BoundAction::Find)); },
        };
        let copy = match self.key_for(BoundAction::Copy) {
            Some(key) => key,
            None => { return Err(ConfigError::MissingKey(BoundAction::Copy)); },
        };
        let delete = match self.key_for(BoundAction::Delete) {
            Some(key) => key,
            None => { return Err(ConfigError::MissingKey(BoundAction::Delete)); },
        };
        let save = match self.key_for(BoundAction::Save) {
            Some(key) => key,
            None => { return Err(ConfigError::MissingKey(BoundAction::Save)); },
        };
        let edit = self.key_for(BoundAction::Edit);
        Ok(KeyBindings { new, find, copy, delete, save, edit })
    }
}

/// The default configuration has a character for every action but
/// editing: `n`, `f`, `c`, `x` and `s`.
pub proof fn lemma_default_resolves()
    ensures
        resolved(default_keys()) == Ok::<KeyBindings, ConfigError>(
            KeyBindings { new: 'n', find: 'f', copy: 'c', delete: 'x', save: 's', edit: None },
        ),
{
    reveal_strlit("KEY_NEW");
    reveal_strlit("KEY_FIND");
    reveal_strlit("KEY_COPY");
    reveal_strlit("KEY_DELETE");
    reveal_strlit("KEY_SAVESNIPPET");
    reveal_strlit("KEY_EDIT");
    let new = key_name(BoundAction::New);
    let find = key_name(BoundAction::Find);
    let copy = key_name(BoundAction::Copy);
    let delete = key_name(BoundAction::Delete);
    let save = key_name(BoundAction::Save);
    let edit = key_name(BoundAction::Edit);
    assert(new.len() == 7 && find.len() == 8 && copy.len() == 8 && delete.len() == 10
        && save.len() == 15 && edit.len() == 8);
    assert(find[4] == 'F' && copy[4] == 'C' && edit[4] == 'E');
}

} // verus!

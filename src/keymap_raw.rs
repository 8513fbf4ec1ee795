use crate::event::KeyPress;
use crate::keymap::{command_action, command_action_spec, parse_key, parse_key_spec};
use crate::keymap_table::{
    clone_description, insert_spec, lemma_insert_prefix_free, prefix_free, Chord, ChordModel, KeymapTable};
use vstd::prelude::*;

verus! {

/// One configured binding: a key sequence, the command it runs and an
/// optional description.
pub struct KeymapEntry {
    /// The key combinations, in the order they are typed.
    pub keys: Vec<String>,
    /// The command to execute.
    pub command: String,
    /// The description of the command.
    pub description: Option<String>,
}

/// The configured bindings of one input mode.
pub struct KeymapMode {
    pub keymap: Vec<KeymapEntry>,
}

/// The raw keymap configuration, one optional mode per context.
pub struct KeymapRaw {
    /// Bindings of the core window, active in all components.
    pub core_window: Option<KeymapMode>,
    /// Bindings of the chat list.
    pub chat_list: Option<KeymapMode>,
    /// Bindings of the open chat.
    pub chat: Option<KeymapMode>,
    /// Bindings of the message prompt.
    pub prompt: Option<KeymapMode>,
}

/// Why a configuration could not be compiled.
#[derive(Debug, PartialEq, Eq)]
pub enum ConfigError {
    /// An entry with no keys; it holds the entry's command.
    EmptyChord(String),
    /// A key combination that does not parse.
    InvalidKey(String),
    /// A command name that names no action.
    UnknownCommand(String),
}

/// The compiled keymaps, one trie per mode.
pub struct KeymapConfig {
    pub core_window: KeymapTable,
    pub chat_list: KeymapTable,
    pub chat: KeymapTable,
    pub prompt: KeymapTable,
}

/// The key presses a list of key combinations stands for, or the first one
/// that does not parse.
pub open spec fn parse_keys_spec(ks: Seq<String>) -> Result<Seq<KeyPress>, ConfigError>
    decreases ks.len(),
{
    if ks.len() == 0 {
        Ok(Seq::empty())
    } else {
        match parse_keys_spec(ks.drop_last()) {
            Err(e) => Err(e),
            Ok(p) => match parse_key_spec(ks.last()@) {
                None => Err(ConfigError::InvalidKey(ks.last())),
                Some(k) => Ok(p.push(k)),
            },
        }
    }
}

/// The chord an entry configures: its keys are checked before its command.
pub open spec fn entry_chord_spec(e: KeymapEntry) -> Result<ChordModel, ConfigError> {
    if e.keys@.len() == 0 {
        Err(ConfigError::EmptyChord(e.command))
    } else {
        match parse_keys_spec(e.keys@) {
            Err(err) => Err(err),
            Ok(keys) => match command_action_spec(e.command@) {
                None => Err(ConfigError::UnknownCommand(e.command)),
                Some(action) => Ok(ChordModel { keys, action, description: e.description }),
            },
        }
    }
}

/// The trie that a list of entries compiles to, inserted in order, or the
/// error of the first entry that fails.
pub open spec fn compile_entries_spec(es: Seq<KeymapEntry>) -> Result<Seq<ChordModel>, ConfigError>
    decreases es.len(),
{
    if es.len() == 0 {
        Ok(Seq::empty())
    } else {
        match compile_entries_spec(es.drop_last()) {
            Err(e) => Err(e),
            Ok(t) => match entry_chord_spec(es.last()) {
                Err(e) => Err(e),
                Ok(c) => Ok(insert_spec(t, c)),
            },
        }
    }
}

/// What an absent or present mode compiles to.
pub open spec fn compile_mode_spec(m: Option<KeymapMode>) -> Result<Seq<ChordModel>, ConfigError> {
    match m {
        None => Ok(Seq::empty()),
        Some(mode) => compile_entries_spec(mode.keymap@),
    }
}

/// `r` is the outcome of compiling `raw`: the modes are compiled in the
/// order core window, chat list, chat, prompt, and the first error wins.
pub open spec fn compiled(raw: KeymapRaw, r: Result<KeymapConfig, ConfigError>) -> bool {
    let a = compile_mode_spec(raw.core_window);
    let b = compile_mode_spec(raw.chat_list);
    let c = compile_mode_spec(raw.chat);
    let d = compile_mode_spec(raw.prompt);
    match r {
        Ok(k) => a == Ok::<Seq<ChordModel>, ConfigError>(k.core_window@) && b == Ok::<
            Seq<ChordModel>,
            ConfigError,
        >(k.chat_list@) && c == Ok::<Seq<ChordModel>, ConfigError>(k.chat@) && d == Ok::<
            Seq<ChordModel>,
            ConfigError,
        >(k.prompt@),
        Err(e) => if a is Err {
            a == Err::<Seq<ChordModel>, ConfigError>(e)
        } else if b is Err {
            b == Err::<Seq<ChordModel>, ConfigError>(e)
        } else if c is Err {
            c == Err::<Seq<ChordModel>, ConfigError>(e)
        } else {
            d == Err::<Seq<ChordModel>, ConfigError>(e)
        },
    }
}

/// Parses every key combination of a chord.
pub fn parse_keys(ks: &Vec<String>) -> (r: Result<Vec<KeyPress>, ConfigError>)
    ensures
        match r {
            Ok(p) => parse_keys_spec(ks@) == Ok::<Seq<KeyPress>, ConfigError>(p@),
            Err(e) => parse_keys_spec(ks@) == Err::<Seq<KeyPress>, ConfigError>(e),
        },
{
    let mut out: Vec<KeyPress> = Vec::new();
    let mut i: usize = 0;
    while i < ks.len()
        invariant
            i <= ks@.len(),
            parse_keys_spec(ks@.take(i as int)) == Ok::<Seq<KeyPress>, ConfigError>(out@),
        decreases ks@.len() - i,
    {
        assert(ks@.take(i + 1).drop_last() =~= ks@.take(i as int));
        match parse_key(ks[i].as_str()) {
            None => {
                proof {
                    lemma_parse_keys_error_stays(ks@, i as int + 1);
                }
                return Err(ConfigError::InvalidKey(ks[i].clone()));
            },
            Some(k) => {
                out.push(k);
            },
        }
        i = i + 1;
    }
    assert(ks@.take(i as int) =~= ks@);
    Ok(out)
}

proof fn lemma_parse_keys_error_stays(ks: Seq<String>, n: int)
    requires
        0 <= n <= ks.len(),
        parse_keys_spec(ks.take(n)) is Err,
    ensures
        parse_keys_spec(ks) == parse_keys_spec(ks.take(n)),
    decreases ks.len() - n,
{
    if n < ks.len() {
        assert(ks.take(n + 1).drop_last() =~= ks.take(n));
        lemma_parse_keys_error_stays(ks, n + 1);
    } else {
        assert(ks.take(n) =~= ks);
    }
}

proof fn lemma_compile_error_stays(es: Seq<KeymapEntry>, n: int)
    requires
        0 <= n <= es.len(),
        compile_entries_spec(es.take(n)) is Err,
    ensures
        compile_entries_spec(es) == compile_entries_spec(es.take(n)),
    decreases es.len() - n,
{
    if n < es.len() {
        assert(es.take(n + 1).drop_last() =~= es.take(n));
        lemma_compile_error_stays(es, n + 1);
    } else {
        assert(es.take(n) =~= es);
    }
}

proof fn lemma_parse_keys_len(ks: Seq<String>)
    ensures
        parse_keys_spec(ks) is Ok ==> parse_keys_spec(ks)->Ok_0.len() == ks.len(),
    decreases ks.len(),
{
    if ks.len() > 0 {
        lemma_parse_keys_len(ks.drop_last());
    }
}

/// A compiled mode is a trie: every chord has keys and none lies on the
/// path of another.
pub proof fn lemma_compiled_prefix_free(es: Seq<KeymapEntry>)
    ensures
        compile_entries_spec(es) is Ok ==> prefix_free(compile_entries_spec(es)->Ok_0),
    decreases es.len(),
{
    if es.len() > 0 {
        lemma_compiled_prefix_free(es.drop_last());
        lemma_parse_keys_len(es.last().keys@);
        match compile_entries_spec(es.drop_last()) {
            Ok(t) => match entry_chord_spec(es.last()) {
                Ok(c) => lemma_insert_prefix_free(t, c),
                Err(_) => {},
            },
            Err(_) => {},
        }
    }
}

/// Compiles one entry into its chord.
pub fn entry_chord(e: &KeymapEntry) -> (r: Result<Chord, ConfigError>)
    ensures
        match r {
            Ok(c) => entry_chord_spec(*e) == Ok::<ChordModel, ConfigError>(c.model()),
            Err(err) => entry_chord_spec(*e) == Err::<ChordModel, ConfigError>(err),
        },
{
    if e.keys.len() == 0 {
        return Err(ConfigError::EmptyChord(e.command.clone()));
    }
    let keys = match parse_keys(&e.keys) {
        Ok(k) => k,
        Err(err) => {
            return Err(err);
        },
    };
    match command_action(e.command.as_str()) {
        None => Err(ConfigError::UnknownCommand(e.command.clone())),
        Some(action) => Ok(Chord { keys, action, description: clone_description(&e.description) }),
    }
}

/// Compiles the entries of one mode into its trie, in order; a later entry
/// replaces the earlier ones on its path.
pub fn compile_entries(es: &Vec<KeymapEntry>) -> (r: Result<KeymapTable, ConfigError>)
    ensures
        match r {
            Ok(t) => compile_entries_spec(es@) == Ok::<Seq<ChordModel>, ConfigError>(t@),
            Err(e) => compile_entries_spec(es@) == Err::<Seq<ChordModel>, ConfigError>(e),
        },
        r is Ok ==> prefix_free(r->Ok_0@),
{
    proof {
        lemma_compiled_prefix_free(es@);
    }
    let mut table = KeymapTable::new();
    let mut i: usize = 0;
    assert(es@.take(0) =~= Seq::<KeymapEntry>::empty());
    while i < es.len()
        invariant
            i <= es@.len(),
            compile_entries_spec(es@.take(i as int)) == Ok::<Seq<ChordModel>, ConfigError>(
                table@,
            ),
        decreases es@.len() - i,
    {
        assert(es@.take(i + 1).drop_last() =~= es@.take(i as int));
        assert(es@.take(i + 1).last() == es@[i as int]);
        match entry_chord(&es[i]) {
            Err(err) => {
                proof {
                    lemma_compile_error_stays(es@, i as int + 1);
                }
                return Err(err);
            },
            Ok(c) => {
                table.insert(c);
            },
        }
        i = i + 1;
    }
    assert(es@.take(i as int) =~= es@);
    Ok(table)
}

/// Compiles one optional mode; an absent mode has an empty trie.
pub fn compile_mode(m: &Option<KeymapMode>) -> (r: Result<KeymapTable, ConfigError>)
    ensures
        match r {
            Ok(t) => compile_mode_spec(*m) == Ok::<Seq<ChordModel>, ConfigError>(t@),
            Err(e) => compile_mode_spec(*m) == Err::<Seq<ChordModel>, ConfigError>(e),
        },
        r is Ok ==> prefix_free(r->Ok_0@),
{
    match m {
        None => {
            let t = KeymapTable::new();
            assert(prefix_free(t@));
            Ok(t)
        },
        Some(mode) => compile_entries(&mode.keymap),
    }
}

impl KeymapConfig {
    /// Compiles a raw configuration into one trie per mode.
    pub fn compile(raw: &KeymapRaw) -> (r: Result<KeymapConfig, ConfigError>)
        ensures
            compiled(*raw, r),
            r is Ok ==> prefix_free(r->Ok_0.core_window@) && prefix_free(r->Ok_0.chat_list@)
                && prefix_free(r->Ok_0.chat@) && prefix_free(r->Ok_0.prompt@),
    {
        let core_window = match compile_mode(&raw.core_window) {
            Ok(t) => t,
            Err(e) => {
                return Err(e);
            },
        };
        let chat_list = match compile_mode(&raw.chat_list) {
            Ok(t) => t,
            Err(e) => {
                return Err(e);
            },
        };
        let chat = match compile_mode(&raw.chat) {
            Ok(t) => t,
            Err(e) => {
                return Err(e);
            },
        };
        let prompt = match compile_mode(&raw.prompt) {
            Ok(t) => t,
            Err(e) => {
                return Err(e);
            },
        };
        Ok(KeymapConfig { core_window, chat_list, chat, prompt })
    }
}

/// Compiling is deterministic: two compilations of one configuration give
/// the same outcome, with the same chords in every mode's trie.
pub proof fn lemma_compile_deterministic(
    raw: KeymapRaw,
    r1: Result<KeymapConfig, ConfigError>,
    r2: Result<KeymapConfig, ConfigError>,
)
    requires
        compiled(raw, r1),
        compiled(raw, r2),
    ensures
        r1 is Ok <==> r2 is Ok,
        r1 is Ok ==> r1->Ok_0.core_window@ == r2->Ok_0.core_window@ && r1->Ok_0.chat_list@
            == r2->Ok_0.chat_list@ && r1->Ok_0.chat@ == r2->Ok_0.chat@ && r1->Ok_0.prompt@
            == r2->Ok_0.prompt@,
        r1 is Err ==> r1->Err_0 == r2->Err_0,
{
}

} // verus!

//! Window rules that were learned from what the user did.
//!
//! What the user sets for a window is remembered by executable and window class, or by
//! executable alone for windows without a class.
use crate::config::types::{MatchRule, WindowAction, WindowRule, WindowRulesConfig};
use crate::paths::{begins_with_two_separators, fits_extension, has_extension, with_extension};
use crate::text::{concat, same_text, text_of};
use vstd::prelude::*;
use vstd::string::*;

verus! {

/// Store of the learned rules.
#[derive(Debug, Clone, PartialEq)]
pub struct HistoryStore {
    config: WindowRulesConfig,
}

/// What reading the file of learned rules gave.
#[derive(Debug)]
pub enum HistoryRead {
    /// The rules in it.
    Rules(WindowRulesConfig),
    /// There is a file, but it cannot be understood.
    Corrupt,
    /// There is no file.
    Missing,
    /// There is a file, but it cannot be read.
    Unreadable,
}

/// What came of a step of saving.
#[derive(Debug)]
pub enum SaveEvent {
    /// The rules in file format, or why they could not be written down.
    Serialized(Result<String, String>),
    /// The temporary file was written, or why not.
    TempWritten(Result<(), String>),
    /// The temporary file took the place of the file, or why not.
    Renamed(Result<(), String>),
}

/// The next step of saving.
#[derive(Debug, PartialEq)]
pub enum SaveStep {
    /// Write this to the temporary file.
    WriteTemp(String),
    /// Put the temporary file in the place of the file.
    Rename,
    /// Remove the temporary file and give up with this cause.
    RemoveTemp(String),
    /// Give up with this cause.
    Fail(String),
    /// Saved.
    Done,
}

/// Comment at the top of the file of learned rules.
pub const HISTORY_FILE_HEADER: &'static str = "# history-stm-rules.toml — learned window classification rules.\n#\n# This file is maintained automatically by stmd based on your `set-window`\n# float/tile decisions. You may edit or delete entries by hand; stmd will\n# recreate the file as you continue using it. To clear ALL learned rules,\n# delete this file (or empty the [[rules]] list).\n#\n# Priority chain: user rules (stm-rules.toml) > learned rules (this file)\n# > default rules > default_action.\n";

/// The class as far as it identifies an application: an empty one does not.
pub open spec fn class_key(class: Option<&str>) -> Option<Seq<char>> {
    match class {
        Some(c) => if c@.len() == 0 {
            None
        } else {
            Some(c@)
        },
        None => None,
    }
}

/// Whether a rule is about the application with this executable and class.
pub open spec fn is_about(rule: WindowRule, exe: Seq<char>, class: Option<Seq<char>>) -> bool {
    text_of(rule.match_.exe) == Some(exe) && text_of(rule.match_.class) == class
}

/// Position of the first rule about an application, or the number of rules.
pub open spec fn first_about(
    rules: Seq<WindowRule>,
    exe: Seq<char>,
    class: Option<Seq<char>>,
) -> int
    decreases rules.len(),
{
    if rules.len() == 0 {
        0
    } else if is_about(rules[0], exe, class) {
        0
    } else {
        1 + first_about(rules.drop_first(), exe, class)
    }
}

/// What was learned about an application.
pub open spec fn learned(
    rules: Seq<WindowRule>,
    exe: Seq<char>,
    class: Option<Seq<char>>,
) -> Option<WindowAction> {
    let i = first_about(rules, exe, class);
    if i < rules.len() {
        Some(rules[i].action)
    } else {
        None
    }
}

/// Whether a rule says of an application just this, and nothing else.
pub open spec fn is_fresh_rule(
    rule: WindowRule,
    action: WindowAction,
    exe: Seq<char>,
    class: Option<Seq<char>>,
) -> bool {
    &&& is_about(rule, exe, class)
    &&& rule.action == action
    &&& rule.match_.title is None
    &&& rule.match_.title_contains is None
    &&& rule.match_.title_regex is None
    &&& rule.match_.process_path is None
    &&& rule.match_.exe_regex is None
    &&& rule.match_.class_regex is None
    &&& rule.match_.process_path_regex is None
    &&& rule.initial_width_px is None
    &&& !rule.override_persist
}

/// Whether `after` are the rules `before` once an action was recorded for an application: the
/// first rule about it is updated in place, or a fresh one is appended.
pub open spec fn is_recorded(
    before: Seq<WindowRule>,
    after: Seq<WindowRule>,
    action: WindowAction,
    exe: Seq<char>,
    class: Option<Seq<char>>,
) -> bool {
    let i = first_about(before, exe, class);
    if i < before.len() {
        after == before.update(i, WindowRule { action, ..before[i] })
    } else {
        &&& after.len() == before.len() + 1
        &&& after.drop_last() == before
        &&& is_fresh_rule(after.last(), action, exe, class)
    }
}

fn option_text_is(s: &Option<String>, t: Option<&str>) -> (res: bool)
    ensures
        res == match t {
            Some(u) => text_of(*s) == Some(u@),
            None => text_of(*s) is None,
        },
{
    match (s, t) {
        (Some(a), Some(b)) => same_text(a.as_str(), b),
        (None, None) => true,
        _ => false,
    }
}

impl HistoryStore {
    /// The rules.
    pub closed spec fn view(&self) -> Seq<WindowRule> {
        self.config.rules@
    }

    /// The action for everything else, which only goes along with the rules.
    pub closed spec fn fallback(&self) -> WindowAction {
        self.config.default_action
    }

    /// What is to be written to the file.
    pub closed spec fn saved(&self) -> WindowRulesConfig {
        self.config
    }

    /// An empty store.
    pub fn new() -> (res: Self)
        ensures
            res@.len() == 0,
            res.fallback() == WindowAction::Float,
    {
        HistoryStore { config: WindowRulesConfig::default() }
    }

    /// The store after reading its file. A file that is missing or no good gives an empty
    /// store, so that the program always starts.
    #[must_use]
    pub fn load(read: HistoryRead) -> (res: Self)
        ensures
            (res@, res.fallback()) == loaded(read),
    {
        match read {
            HistoryRead::Rules(config) => HistoryStore { config },
            HistoryRead::Corrupt => HistoryStore::new(),
            HistoryRead::Missing => HistoryStore::new(),
            HistoryRead::Unreadable => HistoryStore::new(),
        }
    }

    /// Records what the user wants for an application, and says whether that changed anything.
    pub fn record(&mut self, action: WindowAction, exe: &str, class: Option<&str>) -> (changed:
        bool)
        requires
            exe@.len() > 0,
        ensures
            is_recorded(old(self)@, final(self)@, action, exe@, class_key(class)),
            changed == (learned(old(self)@, exe@, class_key(class)) != Some(action)),
            final(self).fallback() == old(self).fallback(),
    {
        let known: Option<&str> = match class {
            Some(c) => if c.is_empty() {
                None
            } else {
                Some(c)
            },
            None => None,
        };
        let ghost key: Option<Seq<char>> = class_key(class);
        let ghost rules = self.config.rules@;
        let n: usize = self.config.rules.len();
        let mut i: usize = 0;
        assert(rules.skip(0) =~= rules);
        while i < n
            invariant
                i <= n,
                n == self.config.rules@.len(),
                rules == self.config.rules@,
                *self == *old(self),
                key == class_key(class),
                key == match known {
                    Some(c) => Some(c@),
                    None => None::<Seq<char>>,
                },
                first_about(rules, exe@, key) == i + first_about(rules.skip(i as int), exe@, key),
            decreases n - i,
        {
            proof {
                assert(rules.skip(i as int).drop_first() =~= rules.skip(i + 1));
            }
            let matches: bool = option_text_is(&self.config.rules[i].match_.exe, Some(exe))
                && option_text_is(&self.config.rules[i].match_.class, known);
            if matches {
                assert(first_about(rules, exe@, key) == i);
                if self.config.rules[i].action == action {
                    assert(rules.update(i as int, WindowRule { action, ..rules[i as int] })
                        =~= rules);
                    return false;
                }
                self.config.rules[i].action = action;
                return true;
            }
            i = i + 1;
        }
        let class_text: Option<String> = match known {
            Some(c) => Some(c.to_owned()),
            None => None,
        };
        let match_rule = MatchRule {
            exe: Some(exe.to_owned()),
            title: None,
            title_contains: None,
            title_regex: None,
            class: class_text,
            process_path: None,
            exe_regex: None,
            class_regex: None,
            process_path_regex: None,
        };
        self.config.rules.push(
            WindowRule {
                match_: match_rule,
                action,
                initial_width_px: None,
                override_persist: false,
            },
        );
        assert(self.config.rules@.drop_last() =~= rules);
        true
    }

    /// The contents of the file of learned rules, given the rules in file format.
    pub fn file_content(rules_toml: &str) -> (res: String)
        ensures
            res@ == HISTORY_FILE_HEADER@ + rules_toml@,
    {
        concat(HISTORY_FILE_HEADER, rules_toml)
    }

    /// Decides the next step of saving, from what came of the one before. The rules are written to
    /// a temporary file first, which then takes the place of the file of learned rules; where that
    /// fails the temporary file is removed.
    pub fn save(event: SaveEvent) -> (res: SaveStep)
        ensures
            match event {
                SaveEvent::Serialized(Ok(rules_toml)) => res is WriteTemp && res->WriteTemp_0@
                    == HISTORY_FILE_HEADER@ + rules_toml@,
                SaveEvent::Serialized(Err(cause)) => res == SaveStep::Fail(cause),
                SaveEvent::TempWritten(Ok(())) => res == SaveStep::Rename,
                SaveEvent::TempWritten(Err(cause)) => res == SaveStep::Fail(cause),
                SaveEvent::Renamed(Ok(())) => res == SaveStep::Done,
                SaveEvent::Renamed(Err(cause)) => res == SaveStep::RemoveTemp(cause),
            },
    {
        match event {
            SaveEvent::Serialized(Ok(rules_toml)) => SaveStep::WriteTemp(
                HistoryStore::file_content(rules_toml.as_str()),
            ),
            SaveEvent::Serialized(Err(cause)) => SaveStep::Fail(cause),
            SaveEvent::TempWritten(Ok(())) => SaveStep::Rename,
            SaveEvent::TempWritten(Err(cause)) => SaveStep::Fail(cause),
            SaveEvent::Renamed(Ok(())) => SaveStep::Done,
            SaveEvent::Renamed(Err(cause)) => SaveStep::RemoveTemp(cause),
        }
    }

    /// Path of the temporary file for saving to `path`.
    pub fn temp_path(path: &str) -> (res: String)
        ensures
            fits_extension(path@, "toml.tmp"@, res@),
    {
        proof {
            reveal_strlit("toml.tmp");
        }
        with_extension(path, "toml.tmp")
    }

    /// The settings to write to the file.
    pub fn config(&self) -> (res: &WindowRulesConfig)
        ensures
            *res == self.saved(),
            res.rules@ == self@,
            res.default_action == self.fallback(),
    {
        &self.config
    }

    /// The learned rules.
    #[must_use]
    pub fn rules(&self) -> (res: &[WindowRule])
        ensures
            res@ == self@,
    {
        self.config.rules.as_slice()
    }

    /// Number of learned rules.
    #[must_use]
    pub fn len(&self) -> (res: usize)
        ensures
            res == self@.len(),
    {
        self.config.rules.len()
    }

    /// Whether nothing was learned.
    #[must_use]
    pub fn is_empty(&self) -> (res: bool)
        ensures
            res == (self@.len() == 0),
    {
        self.config.rules.len() == 0
    }
}

impl Default for HistoryStore {
    fn default() -> (res: Self)
        ensures
            res@.len() == 0,
            res.fallback() == WindowAction::Float,
    {
        HistoryStore::new()
    }
}

/// The first rule about an application is one about it, and none before it is.
pub proof fn first_about_is_the_first(
    rules: Seq<WindowRule>,
    exe: Seq<char>,
    class: Option<Seq<char>>,
)
    ensures
        0 <= first_about(rules, exe, class) <= rules.len(),
        first_about(rules, exe, class) < rules.len() ==> is_about(
            rules[first_about(rules, exe, class)],
            exe,
            class,
        ),
        forall|j: int|
            0 <= j < first_about(rules, exe, class) ==> !is_about(#[trigger] rules[j], exe, class),
    decreases rules.len(),
{
    if rules.len() > 0 && !is_about(rules[0], exe, class) {
        let rest = rules.drop_first();
        first_about_is_the_first(rest, exe, class);
        assert forall|j: int| 0 <= j < first_about(rules, exe, class) implies !is_about(
            #[trigger] rules[j],
            exe,
            class,
        ) by {
            if j > 0 {
                assert(rules[j] == rest[j - 1]);
            }
        }
    }
}

/// A rule at `i`, with none about the application before it, is the first one.
proof fn lemma_first_about(
    rules: Seq<WindowRule>,
    exe: Seq<char>,
    class: Option<Seq<char>>,
    i: int,
)
    requires
        0 <= i < rules.len(),
        is_about(rules[i], exe, class),
        forall|j: int| 0 <= j < i ==> !is_about(#[trigger] rules[j], exe, class),
    ensures
        first_about(rules, exe, class) == i,
{
    first_about_is_the_first(rules, exe, class);
    let k = first_about(rules, exe, class);
    if k < i {
        assert(!is_about(rules[k], exe, class));
    }
}

/// What was recorded is what is learned.
pub proof fn recorded_action_is_learned(
    before: Seq<WindowRule>,
    after: Seq<WindowRule>,
    action: WindowAction,
    exe: Seq<char>,
    class: Option<Seq<char>>,
)
    requires
        is_recorded(before, after, action, exe, class),
    ensures
        learned(after, exe, class) == Some(action),
{
    first_about_is_the_first(before, exe, class);
    let i = first_about(before, exe, class);
    if i < before.len() {
        assert forall|j: int| 0 <= j < i implies !is_about(#[trigger] after[j], exe, class) by {
            assert(after[j] == before[j]);
        }
        lemma_first_about(after, exe, class, i);
    } else {
        assert forall|j: int| 0 <= j < after.len() - 1 implies !is_about(
            #[trigger] after[j],
            exe,
            class,
        ) by {
            assert(after.drop_last()[j] == before[j]);
        }
        lemma_first_about(after, exe, class, after.len() - 1);
    }
}

/// Recording for one application leaves what was learned about every other one.
pub proof fn other_applications_keep_their_action(
    before: Seq<WindowRule>,
    after: Seq<WindowRule>,
    action: WindowAction,
    exe: Seq<char>,
    class: Option<Seq<char>>,
    other_exe: Seq<char>,
    other_class: Option<Seq<char>>,
)
    requires
        is_recorded(before, after, action, exe, class),
        other_exe != exe || other_class != class,
    ensures
        learned(after, other_exe, other_class) == learned(before, other_exe, other_class),
{
    first_about_is_the_first(before, exe, class);
    first_about_is_the_first(before, other_exe, other_class);
    first_about_is_the_first(after, other_exe, other_class);
    let i = first_about(before, exe, class);
    let k = first_about(before, other_exe, other_class);
    assert forall|j: int| 0 <= j < before.len() implies is_about(
        #[trigger] after[j],
        other_exe,
        other_class,
    ) == is_about(before[j], other_exe, other_class) by {
        if i >= before.len() {
            assert(after.drop_last()[j] == before[j]);
        }
    }
    if k < before.len() {
        assert forall|j: int| 0 <= j < k implies !is_about(
            #[trigger] after[j],
            other_exe,
            other_class,
        ) by {
            assert(!is_about(before[j], other_exe, other_class));
        }
        assert(is_about(after[k], other_exe, other_class));
        lemma_first_about(after, other_exe, other_class, k);
        if i >= before.len() {
            assert(after.drop_last()[k] == before[k]);
        }
    } else {
        let m = first_about(after, other_exe, other_class);
        if m < after.len() {
            if m < before.len() {
                assert(!is_about(before[m], other_exe, other_class));
            }
        }
    }
}

/// Recording the same thing again changes nothing.
pub proof fn recording_twice_is_recording_once(
    before: Seq<WindowRule>,
    once: Seq<WindowRule>,
    twice: Seq<WindowRule>,
    action: WindowAction,
    exe: Seq<char>,
    class: Option<Seq<char>>,
)
    requires
        is_recorded(before, once, action, exe, class),
        is_recorded(once, twice, action, exe, class),
    ensures
        twice == once,
        learned(once, exe, class) == Some(action),
{
    recorded_action_is_learned(before, once, action, exe, class);
    first_about_is_the_first(once, exe, class);
    assert(twice =~= once);
}

/// Whether no application has two rules.
pub open spec fn no_duplicates(rules: Seq<WindowRule>) -> bool {
    forall|i: int, j: int, exe: Seq<char>, class: Option<Seq<char>>|
        #![trigger is_about(rules[i], exe, class), is_about(rules[j], exe, class)]
        0 <= i < j < rules.len() && is_about(rules[i], exe, class) ==> !is_about(
            rules[j],
            exe,
            class,
        )
}

/// Recording never gives an application a second rule.
pub proof fn recording_adds_no_duplicates(
    before: Seq<WindowRule>,
    after: Seq<WindowRule>,
    action: WindowAction,
    exe: Seq<char>,
    class: Option<Seq<char>>,
)
    requires
        no_duplicates(before),
        is_recorded(before, after, action, exe, class),
    ensures
        no_duplicates(after),
{
    first_about_is_the_first(before, exe, class);
    let n = first_about(before, exe, class);
    assert forall|i: int, j: int, e: Seq<char>, c: Option<Seq<char>>|
        0 <= i < j < after.len() && is_about(after[i], e, c) implies !is_about(
        after[j],
        e,
        c,
    ) by {
        if n < before.len() {
            assert(is_about(before[i], e, c));
            assert(!is_about(before[j], e, c));
        } else {
            assert(after.drop_last()[i] == before[i]);
            if j < before.len() {
                assert(after.drop_last()[j] == before[j]);
                assert(is_about(before[i], e, c));
                assert(!is_about(before[j], e, c));
            } else {
                assert(!is_about(before[i], exe, class));
            }
        }
    }
}

/// The application that a rule is about: executable and class.
pub open spec fn application_of(rule: WindowRule) -> (Option<Seq<char>>, Option<Seq<char>>) {
    (text_of(rule.match_.exe), text_of(rule.match_.class))
}

/// The applications that rules are about, in the order of the rules.
pub open spec fn applications(rules: Seq<WindowRule>) -> Seq<
    (Option<Seq<char>>, Option<Seq<char>>),
> {
    Seq::new(rules.len(), |i: int| application_of(rules[i]))
}

/// A call of `record`.
pub struct Recording {
    pub action: WindowAction,
    pub exe: Seq<char>,
    pub class: Option<Seq<char>>,
}

/// The applications of a list of calls, each once, in the order of their first call.
pub open spec fn recorded_applications(calls: Seq<Recording>) -> Seq<
    (Option<Seq<char>>, Option<Seq<char>>),
>
    decreases calls.len(),
{
    if calls.len() == 0 {
        Seq::empty()
    } else {
        let earlier = recorded_applications(calls.drop_last());
        let application = (Some(calls.last().exe), calls.last().class);
        if earlier.contains(application) {
            earlier
        } else {
            earlier.push(application)
        }
    }
}

/// The action of the last of the calls for an application.
pub open spec fn last_recorded(
    calls: Seq<Recording>,
    exe: Seq<char>,
    class: Option<Seq<char>>,
) -> Option<WindowAction>
    decreases calls.len(),
{
    if calls.len() == 0 {
        None
    } else if calls.last().exe == exe && calls.last().class == class {
        Some(calls.last().action)
    } else {
        last_recorded(calls.drop_last(), exe, class)
    }
}

/// Whether these are the rules before and after each of a list of calls on an empty store.
pub open spec fn are_recorded(states: Seq<Seq<WindowRule>>, calls: Seq<Recording>) -> bool {
    &&& states.len() == calls.len() + 1
    &&& states[0].len() == 0
    &&& forall|i: int|
        0 <= i < calls.len() ==> is_recorded(
            #[trigger] states[i],
            states[i + 1],
            calls[i].action,
            calls[i].exe,
            calls[i].class,
        )
}

/// Whatever is recorded, every application that something was recorded for has exactly one rule,
/// with the action that was recorded last, and the rules stand in the order in which the
/// applications were recorded first.
pub proof fn store_keeps_the_last_action_of_each_application(
    states: Seq<Seq<WindowRule>>,
    calls: Seq<Recording>,
)
    requires
        are_recorded(states, calls),
    ensures
        no_duplicates(states.last()),
        applications(states.last()) == recorded_applications(calls),
        forall|exe: Seq<char>, class: Option<Seq<char>>| #[trigger]
            learned(states.last(), exe, class) == last_recorded(calls, exe, class),
    decreases calls.len(),
{
    if calls.len() == 0 {
        assert(applications(states.last()) =~= recorded_applications(calls));
    } else {
        let n = calls.len() - 1;
        let (before, after, call) = (states[n], states[n + 1], calls[n]);
        assert forall|i: int| 0 <= i < n implies is_recorded(
            #[trigger] states.drop_last()[i],
            states.drop_last()[i + 1],
            calls.drop_last()[i].action,
            calls.drop_last()[i].exe,
            calls.drop_last()[i].class,
        ) by {
            assert(is_recorded(
                states[i],
                states[i + 1],
                calls[i].action,
                calls[i].exe,
                calls[i].class,
            ));
        }
        store_keeps_the_last_action_of_each_application(states.drop_last(), calls.drop_last());
        assert(is_recorded(before, after, call.action, call.exe, call.class));
        recording_adds_no_duplicates(before, after, call.action, call.exe, call.class);
        recorded_action_is_learned(before, after, call.action, call.exe, call.class);
        assert forall|exe: Seq<char>, class: Option<Seq<char>>| #[trigger]
            learned(states.last(), exe, class) == last_recorded(calls, exe, class) by {
            if exe != call.exe || class != call.class {
                other_applications_keep_their_action(
                    before,
                    after,
                    call.action,
                    call.exe,
                    call.class,
                    exe,
                    class,
                );
                assert(learned(states.drop_last().last(), exe, class) == last_recorded(
                    calls.drop_last(),
                    exe,
                    class,
                ));
            }
        }
        first_about_is_the_first(before, call.exe, call.class);
        let k = first_about(before, call.exe, call.class);
        let application = (Some(call.exe), call.class);
        let earlier = applications(before);
        if k < before.len() {
            assert(earlier[k] == application);
            assert(applications(after) =~= earlier);
        } else {
            assert(!earlier.contains(application)) by {
                if earlier.contains(application) {
                    let j = choose|j: int| 0 <= j < earlier.len() && earlier[j] == application;
                    assert(is_about(before[j], call.exe, call.class));
                }
            }
            assert forall|i: int| 0 <= i < before.len() implies after[i] == before[i] by {
                assert(after.drop_last()[i] == before[i]);
            }
            assert(applications(after) =~= earlier.push(application));
        }
    }
}

/// The rules of a store after reading its file, and the action for everything else.
pub open spec fn loaded(read: HistoryRead) -> (Seq<WindowRule>, WindowAction) {
    match read {
        HistoryRead::Rules(config) => (config.rules@, config.default_action),
        _ => (Seq::empty(), WindowAction::Float),
    }
}

/// Loading what a store hands out to be written gives back the store.
pub proof fn loading_what_was_saved_restores_the_store(store: HistoryStore)
    ensures
        loaded(HistoryRead::Rules(store.saved())) == (store@, store.fallback()),
{
}

/// The temporary file of the file of learned rules is next to it, with a further extension, and so
/// is never the file itself.
pub proof fn temporary_file_is_another_file(path: Seq<char>, temp: Seq<char>)
    requires
        "history-flow-rules.toml"@.is_suffix_of(path),
        !begins_with_two_separators(path),
        fits_extension(path, "toml.tmp"@, temp),
    ensures
        temp == path + ".tmp"@,
        temp != path,
{
    reveal_strlit("history-flow-rules.toml");
    reveal_strlit("toml.tmp");
    reveal_strlit("toml");
    reveal_strlit(".tmp");
    let name = "history-flow-rules.toml"@;
    let n = path.len() as int;
    assert(name =~= path.skip(n - name.len()));
    let stem = path.take(n - 5);
    assert(stem.last() == name[17]);
    assert(path[n - 5] == name[18] && path[n - 4] == name[19] && path[n - 3] == name[20] && path[n
        - 2] == name[21] && path[n - 1] == name[22]);
    assert(path =~= stem.push('.') + "toml"@);
    assert(has_extension(stem, "toml"@, path));
    assert(temp =~= path + ".tmp"@);
}

/// An empty window class identifies nothing: it counts as none. Any other class counts as it is.
pub proof fn empty_classes_count_as_none(class: &str)
    ensures
        class_key(None) is None,
        class@.len() == 0 ==> class_key(Some(class)) is None,
        class@.len() > 0 ==> class_key(Some(class)) == Some(class@),
{
}

/// A rule is about an application exactly when it names its executable and its class, or no class
/// where there is none.
pub proof fn rules_are_about_executable_and_class(
    rule: WindowRule,
    exe: Seq<char>,
    class: Option<Seq<char>>,
)
    ensures
        is_about(rule, exe, class) <==> {
            &&& rule.match_.exe is Some && rule.match_.exe->Some_0@ == exe
            &&& rule.match_.class is Some <==> class is Some
            &&& class is Some ==> rule.match_.class->Some_0@ == class->Some_0
        },
{
}

/// The rule for an application that nothing was recorded about says what was recorded, matches by
/// executable and class alone, and stands after all others, which stay as they are.
pub proof fn first_recording_appends_a_plain_rule(
    before: Seq<WindowRule>,
    after: Seq<WindowRule>,
    action: WindowAction,
    exe: Seq<char>,
    class: Option<Seq<char>>,
)
    requires
        is_recorded(before, after, action, exe, class),
        forall|i: int| 0 <= i < before.len() ==> !is_about(#[trigger] before[i], exe, class),
    ensures
        after.len() == before.len() + 1,
        forall|i: int| 0 <= i < before.len() ==> #[trigger] after[i] == before[i],
        after.last().action == action,
        text_of(after.last().match_.exe) == Some(exe),
        text_of(after.last().match_.class) == class,
        after.last().match_.title is None && after.last().match_.title_contains is None
            && after.last().match_.title_regex is None && after.last().match_.process_path is None
            && after.last().match_.exe_regex is None && after.last().match_.class_regex is None
            && after.last().match_.process_path_regex is None,
        after.last().initial_width_px is None,
        !after.last().override_persist,
{
    first_about_is_the_first(before, exe, class);
    assert forall|i: int| 0 <= i < before.len() implies #[trigger] after[i] == before[i] by {
        assert(after.drop_last()[i] == before[i]);
    }
}

/// Recording again for an application changes the action of its rule and nothing else: neither
/// what else the rule says nor any other rule.
pub proof fn recording_again_changes_only_the_action(
    before: Seq<WindowRule>,
    after: Seq<WindowRule>,
    action: WindowAction,
    exe: Seq<char>,
    class: Option<Seq<char>>,
    k: int,
)
    requires
        is_recorded(before, after, action, exe, class),
        0 <= k < before.len(),
        is_about(before[k], exe, class),
        forall|i: int| 0 <= i < k ==> !is_about(#[trigger] before[i], exe, class),
    ensures
        after.len() == before.len(),
        after[k].action == action,
        after[k].match_ == before[k].match_,
        after[k].initial_width_px == before[k].initial_width_px,
        after[k].override_persist == before[k].override_persist,
        forall|i: int| 0 <= i < before.len() && i != k ==> #[trigger] after[i] == before[i],
{
    lemma_first_about(before, exe, class, k);
}

/// What is learned about an application is the action of the first rule about it.
pub proof fn first_rule_tells_what_is_learned(
    rules: Seq<WindowRule>,
    exe: Seq<char>,
    class: Option<Seq<char>>,
)
    ensures
        learned(rules, exe, class) is None <==> forall|i: int|
            0 <= i < rules.len() ==> !is_about(#[trigger] rules[i], exe, class),
        forall|k: int|
            0 <= k < rules.len() && is_about(#[trigger] rules[k], exe, class) && (forall|i: int|
                0 <= i < k ==> !is_about(#[trigger] rules[i], exe, class)) ==> learned(
                rules,
                exe,
                class,
            ) == Some(rules[k].action),
{
    first_about_is_the_first(rules, exe, class);
    assert forall|k: int|
        0 <= k < rules.len() && is_about(#[trigger] rules[k], exe, class) && (forall|i: int|
            0 <= i < k ==> !is_about(#[trigger] rules[i], exe, class)) implies learned(
        rules,
        exe,
        class,
    ) == Some(rules[k].action) by {
        lemma_first_about(rules, exe, class, k);
    }
}

/// A file that is missing, unreadable or corrupt gives an empty store, and any other gives its
/// rules in their order.
pub proof fn loading_never_fails(config: WindowRulesConfig)
    ensures
        loaded(HistoryRead::Rules(config)).0 == config.rules@,
        loaded(HistoryRead::Rules(config)).1 == config.default_action,
        loaded(HistoryRead::Missing).0.len() == 0 && loaded(HistoryRead::Missing).1
            == WindowAction::Float,
        loaded(HistoryRead::Corrupt).0.len() == 0 && loaded(HistoryRead::Corrupt).1
            == WindowAction::Float,
        loaded(HistoryRead::Unreadable).0.len() == 0 && loaded(HistoryRead::Unreadable).1
            == WindowAction::Float,
{
}

} // verus!

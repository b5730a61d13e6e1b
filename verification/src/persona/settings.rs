//! Local persona settings and their lenient `key = value` file format.
use vstd::prelude::*;
use crate::text::{
    ascii_lower, chars_of, concat, concat3, is_ws, lemma_trim_end_take, lemma_trim_start_skip,
    lower_char, owned, str_eq, string_from_chars, to_ascii_lowercase, trim, trim_bounds, trim_end,
    trim_start,
};

verus! {

#[derive(Clone, Debug, PartialEq, Eq)]
pub struct PersonaSettings {
    pub persona_enabled: bool,
    pub memory_enabled: bool,
    pub active_profile: String,
}

/// Settings by value: persona switch, memory switch, active profile id.
pub type SettingsView = (bool, bool, Seq<char>);

pub open spec fn settings_view(s: PersonaSettings) -> SettingsView {
    (s.persona_enabled, s.memory_enabled, s.active_profile@)
}

/// Persona on, long-term memory off, the strong-companion profile active.
pub open spec fn default_settings_view() -> SettingsView {
    (true, false, "yunxi_companion_strong"@)
}

impl Default for PersonaSettings {
    fn default() -> (r: Self)
        ensures
            settings_view(r) == default_settings_view(),
    {
        PersonaSettings {
            persona_enabled: true,
            memory_enabled: false,
            active_profile: owned("yunxi_companion_strong"),
        }
    }
}

/// A switch value: `1`, `true`, `yes`, `on` turn it on, `0`, `false`, `no`,
/// `off` turn it off (ASCII case-insensitively, around whitespace); anything
/// else keeps `default`.
pub open spec fn switch_value(value: Seq<char>, default: bool) -> bool {
    let v = ascii_lower(trim(value));
    if v == "1"@ || v == "true"@ || v == "yes"@ || v == "on"@ {
        true
    } else if v == "0"@ || v == "false"@ || v == "no"@ || v == "off"@ {
        false
    } else {
        default
    }
}

pub fn env_bool(value: &str, default: bool) -> (r: bool)
    ensures
        r == switch_value(value@, default),
{
    let t = crate::text::trim_str(value);
    let lower = to_ascii_lowercase(t);
    let v = lower.as_str();
    if str_eq(v, "1") || str_eq(v, "true") || str_eq(v, "yes") || str_eq(v, "on") {
        true
    } else if str_eq(v, "0") || str_eq(v, "false") || str_eq(v, "no") || str_eq(v, "off") {
        false
    } else {
        default
    }
}

/// `s` without leading and trailing `"` characters, as `trim_matches('"')` gives it.
pub open spec fn strip_quotes(s: Seq<char>) -> Seq<char>
    decreases s.len(),
{
    if s.len() > 0 && s[0] == '"' {
        strip_quotes(s.drop_first())
    } else if s.len() > 0 && s.last() == '"' {
        strip_quotes(s.drop_last())
    } else {
        s
    }
}

/// The position of the first `=` in `s`, if any.
pub open spec fn first_eq(s: Seq<char>) -> Option<int> {
    if exists|i: int| 0 <= i < s.len() && s[i] == '=' {
        Some(choose|i: int| 0 <= i < s.len() && s[i] == '=' && forall|j: int| 0 <= j < i ==> s[j] != '=')
    } else {
        None
    }
}

/// One line of the settings file applied to the settings so far: blank lines,
/// `#` comments and lines without `=` change nothing; known keys set their field.
pub open spec fn apply_line(st: SettingsView, line: Seq<char>) -> SettingsView {
    let l = trim(line);
    if l.len() == 0 || l[0] == '#' {
        st
    } else {
        match first_eq(l) {
            None => st,
            Some(eq) => {
                let key = trim(l.take(eq));
                let value = strip_quotes(trim(l.skip(eq + 1)));
                if key == "persona_enabled"@ {
                    (switch_value(value, st.0), st.1, st.2)
                } else if key == "memory_enabled"@ {
                    (st.0, switch_value(value, st.1), st.2)
                } else if key == "active_profile"@ && value.len() > 0 {
                    (st.0, st.1, value)
                } else {
                    st
                }
            },
        }
    }
}

/// Settings after the complete lines of `s`, and the unfinished last line.
pub open spec fn parse_state(s: Seq<char>) -> (SettingsView, Seq<char>)
    decreases s.len(),
{
    if s.len() == 0 {
        (default_settings_view(), Seq::empty())
    } else {
        let prev = parse_state(s.drop_last());
        if s.last() == '\n' {
            (apply_line(prev.0, prev.1), Seq::empty())
        } else {
            (prev.0, prev.1.push(s.last()))
        }
    }
}

/// The settings that a file's text describes, read line by line from the defaults.
pub open spec fn parsed_settings(content: Seq<char>) -> SettingsView {
    let st = parse_state(content);
    apply_line(st.0, st.1)
}

fn first_eq_index(v: &[char]) -> (r: Option<usize>)
    ensures
        match r {
            Some(i) => first_eq(v@) == Some(i as int) && i < v@.len(),
            None => first_eq(v@) is None,
        },
{
    let mut i: usize = 0;
    while i < v.len()
        invariant
            i <= v@.len(),
            forall|j: int| 0 <= j < i ==> v@[j] != '=',
        decreases v@.len() - i,
    {
        if v[i] == '=' {
            assert(exists|k: int| 0 <= k < v@.len() && v@[k] == '=');
            let ghost c = choose|k: int|
                0 <= k < v@.len() && v@[k] == '=' && forall|j: int| 0 <= j < k ==> v@[j] != '=';
            assert(0 <= i < v@.len() && v@[i as int] == '=' && forall|j: int|
                0 <= j < i ==> v@[j] != '=');
            proof {
                if c < i {
                } else if c > i {
                    assert(v@[i as int] != '=');
                }
            }
            return Some(i);
        }
        i = i + 1;
    }
    None
}

fn strip_quote_bounds(v: &[char], a: usize, b: usize) -> (r: (usize, usize))
    requires
        a <= b <= v@.len(),
    ensures
        a <= r.0 <= r.1 <= b,
        strip_quotes(v@.subrange(a as int, b as int)) == v@.subrange(r.0 as int, r.1 as int),
    decreases b - a,
{
    if a < b && v[a] == '"' {
        assert(v@.subrange(a as int, b as int).drop_first() =~= v@.subrange(a + 1, b as int));
        strip_quote_bounds(v, a + 1, b)
    } else if a < b && v[b - 1] == '"' {
        assert(v@.subrange(a as int, b as int).drop_last() =~= v@.subrange(a as int, b - 1));
        strip_quote_bounds(v, a, b - 1)
    } else {
        (a, b)
    }
}

fn apply_line_exec(st: &mut PersonaSettings, line: &[char])
    ensures
        settings_view(*final(st)) == apply_line(settings_view(*old(st)), line@),
{
    let (a, b) = trim_bounds(line);
    let l: Vec<char> = slice_range(line, a, b);
    if l.len() == 0 || l[0] == '#' {
        return;
    }
    let eq = match first_eq_index(l.as_slice()) {
        Some(eq) => eq,
        None => return,
    };
    let key_part = slice_range(l.as_slice(), 0, eq);
    let (ka, kb) = trim_bounds(key_part.as_slice());
    let key_chars = slice_range(key_part.as_slice(), ka, kb);
    let rest = slice_range(l.as_slice(), eq + 1, l.len());
    let (ra, rb) = trim_bounds(rest.as_slice());
    let (qa, qb) = strip_quote_bounds(rest.as_slice(), ra, rb);
    let value_chars = slice_range(rest.as_slice(), qa, qb);
    proof {
        assert(l@.take(eq as int) =~= key_part@);
        assert(l@.skip(eq + 1) =~= rest@);
    }
    let key = string_from_chars(key_chars.as_slice());
    let value = string_from_chars(value_chars.as_slice());
    if str_eq(key.as_str(), "persona_enabled") {
        st.persona_enabled = env_bool(value.as_str(), st.persona_enabled);
    } else if str_eq(key.as_str(), "memory_enabled") {
        st.memory_enabled = env_bool(value.as_str(), st.memory_enabled);
    } else if str_eq(key.as_str(), "active_profile") && value_chars.len() > 0 {
        st.active_profile = value;
    }
}

/// The characters of `v` from `a` up to (not including) `b`.
pub fn slice_range(v: &[char], a: usize, b: usize) -> (r: Vec<char>)
    requires
        a <= b <= v@.len(),
    ensures
        r@ == v@.subrange(a as int, b as int),
{
    let mut out: Vec<char> = Vec::new();
    let mut i = a;
    while i < b
        invariant
            a <= i <= b,
            b <= v@.len(),
            out@ == v@.subrange(a as int, i as int),
        decreases b - i,
    {
        out.push(v[i]);
        i = i + 1;
        assert(out@ =~= v@.subrange(a as int, i as int));
    }
    out
}

impl PersonaSettings {
    /// Reads settings from the text of a settings file, keeping defaults for
    /// whatever it does not set; see `parsed_settings`.
    pub fn parse_lossy(content: &str) -> (r: PersonaSettings)
        ensures
            settings_view(r) == parsed_settings(content@),
    {
        let v = chars_of(content);
        let mut settings = PersonaSettings::default();
        let mut line: Vec<char> = Vec::new();
        let mut i: usize = 0;
        while i < v.len()
            invariant
                v@ == content@,
                i <= v@.len(),
                (settings_view(settings), line@) == parse_state(content@.take(i as int)),
            decreases v@.len() - i,
        {
            let c = v[i];
            proof {
                assert(content@.take(i + 1).drop_last() =~= content@.take(i as int));
            }
            if c == '\n' {
                apply_line_exec(&mut settings, line.as_slice());
                line = Vec::new();
            } else {
                line.push(c);
            }
            i = i + 1;
        }
        assert(content@.take(v@.len() as int) =~= content@);
        apply_line_exec(&mut settings, line.as_slice());
        settings
    }

    /// The settings as a file: one `key = value` line per field.
    pub fn to_config_string(&self) -> (r: String)
        ensures
            r@ == config_text(*self),
    {
        let a = concat("persona_enabled = ", bool_str(self.persona_enabled));
        let b = concat3(a.as_str(), "\nmemory_enabled = ", bool_str(self.memory_enabled));
        let c = concat3(b.as_str(), "\nactive_profile = \"", self.active_profile.as_str());
        concat(c.as_str(), "\"\n")
    }
}

/// The settings file text: one `key = value` line per field, the profile
/// quoted.
pub open spec fn config_text(s: PersonaSettings) -> Seq<char> {
    "persona_enabled = "@ + bool_text(s.persona_enabled) + "\nmemory_enabled = "@
        + bool_text(s.memory_enabled) + "\nactive_profile = \""@ + s.active_profile@ + "\"\n"@
}

pub open spec fn bool_text(b: bool) -> Seq<char> {
    if b {
        "true"@
    } else {
        "false"@
    }
}

pub fn bool_str(b: bool) -> (r: &'static str)
    ensures
        r@ == bool_text(b),
{
    if b {
        "true"
    } else {
        "false"
    }
}

// ---------------------------------------------------------------------------
// Writing settings and reading them back
// ---------------------------------------------------------------------------

/// A text whose first and last characters are not whitespace is its own trim.
proof fn lemma_trim_visible(s: Seq<char>)
    requires
        s.len() > 0,
        !is_ws(s[0]),
        !is_ws(s.last()),
    ensures
        trim(s) == s,
{
    lemma_trim_start_skip(s, 0);
    assert(s.skip(0) =~= s);
    lemma_trim_end_take(s, s.len() as int);
    assert(s.take(s.len() as int) =~= s);
}

/// Reading characters that end no line only lengthens the unfinished line.
proof fn lemma_parse_state_extend(pre: Seq<char>, t: Seq<char>)
    requires
        forall|i: int| 0 <= i < t.len() ==> t[i] != '\n',
    ensures
        parse_state(pre + t) == (parse_state(pre).0, parse_state(pre).1 + t),
    decreases t.len(),
{
    if t.len() == 0 {
        assert(pre + t =~= pre);
        assert(parse_state(pre).1 + t =~= parse_state(pre).1);
    } else {
        let u = t.drop_last();
        lemma_parse_state_extend(pre, u);
        assert((pre + t).drop_last() =~= pre + u);
        assert((pre + t).last() == t.last());
        assert(parse_state(pre).1 + u.push(t.last()) =~= parse_state(pre).1 + t);
        assert(u.push(t.last()) =~= t);
    }
}

/// A line and its line break, read after `pre` whose lines are all complete,
/// apply that line.
proof fn lemma_parse_state_line(pre: Seq<char>, line: Seq<char>)
    requires
        parse_state(pre).1 == Seq::<char>::empty(),
        forall|i: int| 0 <= i < line.len() ==> line[i] != '\n',
    ensures
        parse_state(pre + line + seq!['\n']) == (
            apply_line(parse_state(pre).0, line),
            Seq::<char>::empty(),
        ),
{
    lemma_parse_state_extend(pre, line);
    assert((pre + line + seq!['\n']).drop_last() =~= pre + line);
    assert(Seq::<char>::empty() + line =~= line);
}

/// The characters a key may have: ASCII letters and `_`.
pub open spec fn key_char(c: char) -> bool {
    ('a' <= c && c <= 'z') || c == '_'
}

/// A `key = value` line sets the key to the value, once trimmed and unquoted.
proof fn lemma_key_value_line(key: Seq<char>, value: Seq<char>)
    requires
        key.len() > 0,
        forall|i: int| 0 <= i < key.len() ==> key_char(#[trigger] key[i]),
        value.len() > 0,
        !is_ws(value[0]),
        !is_ws(value.last()),
    ensures
        ({
            let l = key + " = "@ + value;
            &&& trim(l) == l
            &&& l[0] != '#'
            &&& first_eq(l) == Some(key.len() + 1int)
            &&& trim(l.take(key.len() + 1int)) == key
            &&& trim(l.skip(key.len() + 2int)) == value
        }),
{
    reveal_strlit(" = ");
    let l = key + " = "@ + value;
    let k = key.len() as int;
    assert(l[0] == key[0]);
    assert(key_char(key[0]));
    assert(l.last() == value.last());
    lemma_trim_visible(l);
    assert(l[k] == ' ');
    assert(l[k + 1] == '=');
    assert forall|j: int| 0 <= j < k + 1 implies l[j] != '=' by {
        if j < k {
            assert(l[j] == key[j]);
            assert(key_char(key[j]));
        }
    }
    assert(exists|i: int| 0 <= i < l.len() && l[i] == '=');
    let c = choose|i: int| 0 <= i < l.len() && l[i] == '=' && forall|j: int| 0 <= j < i ==> l[j] != '=';
    assert(0 <= k + 1 < l.len() && l[k + 1] == '=' && forall|j: int| 0 <= j < k + 1 ==> l[j] != '=');
    if c < k + 1 {
        assert(l[c] != '=');
    } else if c > k + 1 {
        assert(l[k + 1] != '=');
    }
    let head = l.take(k + 1);
    assert(head =~= key.push(' '));
    assert(head[0] == key[0]);
    lemma_trim_start_skip(head, 0);
    assert(head.skip(0) =~= head);
    assert(key_char(key[k - 1]));
    lemma_trim_end_take(head, k);
    assert(head.take(k) =~= key);
    let tail = l.skip(k + 2);
    assert(tail =~= seq![' '] + value);
    assert(is_ws(tail[0]));
    assert(tail[1] == value[0]);
    lemma_trim_start_skip(tail, 1);
    assert(tail.skip(1) =~= value);
    lemma_trim_end_take(value, value.len() as int);
    assert(value.take(value.len() as int) =~= value);
}

proof fn lemma_switch_text(b: bool, d: bool)
    ensures
        switch_value(bool_text(b), d) == b,
        strip_quotes(bool_text(b)) == bool_text(b),
{
    reveal_strlit("true");
    reveal_strlit("false");
    reveal_strlit("1");
    reveal_strlit("yes");
    reveal_strlit("on");
    reveal_strlit("0");
    reveal_strlit("no");
    reveal_strlit("off");
    let t = bool_text(b);
    lemma_trim_visible(t);
    assert(ascii_lower(t) =~= t);
    if b {
        assert(t == "true"@);
    } else {
        assert(t == "false"@);
        assert(t != "1"@);
        assert(t != "yes"@);
        assert(t != "on"@);
        assert(t != "true"@);
    }
    assert(strip_quotes(t) == t);
}

/// The settings file text of a profile name written in quotes.
proof fn lemma_strip_profile_quotes(p: Seq<char>)
    requires
        p.len() > 0,
        p[0] != '"',
        p.last() != '"',
    ensures
        strip_quotes(seq!['"'] + p + seq!['"']) == p,
{
    let q = seq!['"'] + p + seq!['"'];
    assert(q[0] == '"');
    assert(q.drop_first() =~= p + seq!['"']);
    assert(strip_quotes(q) == strip_quotes(q.drop_first()));
    let r = p + seq!['"'];
    assert(r[0] == p[0]);
    assert(r.last() == '"');
    assert(r.drop_last() =~= p);
    assert(strip_quotes(r) == strip_quotes(r.drop_last()));
    assert(strip_quotes(p) == p);
}

/// A `key = value` line applied to settings: what `apply_line` does with it.
proof fn lemma_apply_key_value(st: SettingsView, key: Seq<char>, value: Seq<char>)
    requires
        key.len() > 0,
        forall|i: int| 0 <= i < key.len() ==> key_char(#[trigger] key[i]),
        value.len() > 0,
        !is_ws(value[0]),
        !is_ws(value.last()),
    ensures
        apply_line(st, key + " = "@ + value) == {
            let v = strip_quotes(value);
            if key == "persona_enabled"@ {
                (switch_value(v, st.0), st.1, st.2)
            } else if key == "memory_enabled"@ {
                (st.0, switch_value(v, st.1), st.2)
            } else if key == "active_profile"@ && v.len() > 0 {
                (st.0, st.1, v)
            } else {
                st
            }
        },
{
    lemma_key_value_line(key, value);
    let l = key + " = "@ + value;
    assert(l.len() > 0);
}

/// The settings written by `to_config_string` read back as themselves with
/// `parse_lossy`, for any profile name that is not empty, neither begins nor
/// ends with `"`, and holds no line break.
#[verifier::rlimit(60)]
pub proof fn law_settings_round_trip(s: PersonaSettings)
    requires
        s.active_profile@.len() > 0,
        s.active_profile@[0] != '"',
        s.active_profile@.last() != '"',
        forall|i: int| 0 <= i < s.active_profile@.len() ==> s.active_profile@[i] != '\n',
    ensures
        parsed_settings(config_text(s)) == settings_view(s),
{
    reveal_strlit("persona_enabled = ");
    reveal_strlit("\nmemory_enabled = ");
    reveal_strlit("\nactive_profile = \"");
    reveal_strlit("\"\n");
    reveal_strlit("persona_enabled");
    reveal_strlit("memory_enabled");
    reveal_strlit("active_profile");
    reveal_strlit(" = ");
    reveal_strlit("true");
    reveal_strlit("false");
    let p = s.active_profile@;
    let pe = bool_text(s.persona_enabled);
    let me = bool_text(s.memory_enabled);
    let quoted = seq!['"'] + p + seq!['"'];
    let l1 = "persona_enabled"@ + " = "@ + pe;
    let l2 = "memory_enabled"@ + " = "@ + me;
    let l3 = "active_profile"@ + " = "@ + quoted;
    let nl = seq!['\n'];
    let text = "persona_enabled = "@ + pe + "\nmemory_enabled = "@ + me + "\nactive_profile = \""@ + p
        + "\"\n"@;
    assert(text =~= l1 + nl + l2 + nl + l3 + nl);
    // Each line is a key-value line.
    assert forall|i: int| 0 <= i < "persona_enabled"@.len() implies key_char(#[trigger] "persona_enabled"@[i]) by {}
    assert forall|i: int| 0 <= i < "memory_enabled"@.len() implies key_char(#[trigger] "memory_enabled"@[i]) by {}
    assert forall|i: int| 0 <= i < "active_profile"@.len() implies key_char(#[trigger] "active_profile"@[i]) by {}
    assert(quoted[0] == '"');
    assert(quoted.last() == '"');
    lemma_switch_text(s.persona_enabled, true);
    lemma_switch_text(s.memory_enabled, false);
    lemma_strip_profile_quotes(p);
    // No line holds a line break.
    assert forall|i: int| 0 <= i < l1.len() implies l1[i] != '\n' by {}
    assert forall|i: int| 0 <= i < l2.len() implies l2[i] != '\n' by {}
    assert forall|i: int| 0 <= i < l3.len() implies l3[i] != '\n' by {
        if 18 <= i < 18 + p.len() {
            assert(l3[i] == p[i - 18]);
        }
    }
    // Read line by line.
    lemma_apply_key_value(default_settings_view(), "persona_enabled"@, pe);
    lemma_apply_key_value((s.persona_enabled, false, "yunxi_companion_strong"@), "memory_enabled"@, me);
    lemma_apply_key_value((s.persona_enabled, s.memory_enabled, "yunxi_companion_strong"@), "active_profile"@, quoted);
    let e = Seq::<char>::empty();
    assert(parse_state(e) == (default_settings_view(), e));
    lemma_parse_state_line(e, l1);
    assert(e + l1 + nl =~= l1 + nl);
    let st1 = apply_line(default_settings_view(), l1);
    assert(st1 == (s.persona_enabled, false, "yunxi_companion_strong"@));
    lemma_parse_state_line(l1 + nl, l2);
    let st2 = apply_line(st1, l2);
    assert(st2 == (s.persona_enabled, s.memory_enabled, "yunxi_companion_strong"@));
    lemma_parse_state_line(l1 + nl + l2 + nl, l3);
    let st3 = apply_line(st2, l3);
    assert(st3 == settings_view(s));
    assert(apply_line(st3, e) == st3);
}

/// A word that sets a switch: `1`, `true`, `yes`, `on`, `0`, `false`, `no`,
/// `off`.
pub open spec fn switch_word(w: Seq<char>) -> bool {
    w == "1"@ || w == "true"@ || w == "yes"@ || w == "on"@ || w == "0"@ || w == "false"@ || w == "no"@
        || w == "off"@
}

/// The key of a `key = value` line: the trimmed text before the first `=`
/// of the trimmed line; none for blank lines, `#` comments and lines without
/// `=`.
pub open spec fn line_key(line: Seq<char>) -> Option<Seq<char>> {
    let l = trim(line);
    if l.len() == 0 || l[0] == '#' {
        None
    } else {
        match first_eq(l) {
            None => None,
            Some(eq) => Some(trim(l.take(eq))),
        }
    }
}

/// One of the three keys that the settings file knows.
pub open spec fn known_key(key: Seq<char>) -> bool {
    key == "persona_enabled"@ || key == "memory_enabled"@ || key == "active_profile"@
}

/// Reading starts from the defaults and keeps them where the text says
/// nothing usable: empty text gives the defaults (persona on, memory off, the
/// strong-companion profile); any line whose key is not one of the three
/// known ones (or that has no key at all) changes nothing; a switch value that
/// is not a switch word keeps the switch as it was.
pub proof fn law_settings_defaults(
    st: SettingsView,
    line: Seq<char>,
    switch_text: Seq<char>,
    current: bool,
)
    requires
        line_key(line) is None || !known_key(line_key(line)->0),
    ensures
        parsed_settings(Seq::empty()) == default_settings_view(),
        apply_line(st, line) == st,
        !switch_word(ascii_lower(trim(switch_text))) ==> switch_value(switch_text, current) == current,
{
    let e = Seq::<char>::empty();
    assert(trim_start(e) == e);
    assert(trim_end(e) == e);
}

} // verus!

use vstd::prelude::*;
use vstd::string::*;

use crate::validation::{is_var_key, valid_workflow_var_key};

verus! {

/// `i` is the position of the first `=` in `s`.
pub open spec fn is_first_sep(s: Seq<char>, i: int) -> bool {
    &&& 0 <= i < s.len()
    &&& s[i] == '='
    &&& forall|j: int| 0 <= j < i ==> s[j] != '='
}

/// `s` split around its first `=`: what stands before it and what stands
/// after it; `None` when `s` holds no `=`.
pub open spec fn split_at_sep(s: Seq<char>) -> Option<(Seq<char>, Seq<char>)> {
    if exists|i: int| is_first_sep(s, i) {
        let i = choose|i: int| is_first_sep(s, i);
        Some((s.take(i), s.skip(i + 1)))
    } else {
        None
    }
}

/// The boolean that `s` spells, by the literals `true` and `false`.
pub open spec fn bool_of(s: Seq<char>) -> Option<bool> {
    if s == "true"@ {
        Some(true)
    } else if s == "false"@ {
        Some(false)
    } else {
        None
    }
}

/// What went wrong with the input of a command, as values.
pub enum InputFault {
    MissingSeparator(Seq<char>),
    InvalidScanName(Seq<char>),
    InvalidKey(Seq<char>),
    InvalidBool(Seq<char>),
}

/// A local error, found before any network call.
#[derive(Debug, Clone, PartialEq, Eq)]
pub enum InputError {
    /// A `key=value` token without `=`; holds the token.
    MissingSeparator(String),
    /// A scan name outside `[A-Za-z0-9_]+`; holds the name.
    InvalidScanName(String),
    /// A workflow-variable key outside `[A-Za-z0-9_-]+`; holds the key.
    InvalidKey(String),
    /// A boolean input whose value is neither `true` nor `false`; holds the value.
    InvalidBool(String),
}

impl View for InputError {
    type V = InputFault;

    open spec fn view(&self) -> InputFault {
        match self {
            InputError::MissingSeparator(s) => InputFault::MissingSeparator(s@),
            InputError::InvalidScanName(s) => InputFault::InvalidScanName(s@),
            InputError::InvalidKey(s) => InputFault::InvalidKey(s@),
            InputError::InvalidBool(s) => InputFault::InvalidBool(s@),
        }
    }
}

proof fn lemma_first_sep_unique(s: Seq<char>, i: int, j: int)
    requires
        is_first_sep(s, i),
        is_first_sep(s, j),
    ensures
        i == j,
{
    if i < j {
        assert(s[i] != '=');
    } else if j < i {
        assert(s[j] != '=');
    }
}

/// Splits `input` on its first `=` into key and value; the value may itself
/// hold `=`. Fails when `input` holds no `=`.
pub fn split_input(input: &str) -> (r: Result<(&str, &str), InputError>)
    ensures
        match r {
            Ok((k, v)) => split_at_sep(input@) == Some((k@, v@)),
            Err(e) => split_at_sep(input@) is None && e@ == InputFault::MissingSeparator(input@),
        },
{
    let n = input.unicode_len();
    let mut i: usize = 0;
    while i < n
        invariant
            n == input@.len(),
            i <= n,
            forall|j: int| 0 <= j < i ==> input@[j] != '=',
        decreases n - i,
    {
        if input.get_char(i) == '=' {
            let k = input.substring_char(0, i);
            let v = input.substring_char(i + 1, n);
            proof {
                let s = input@;
                assert(is_first_sep(s, i as int));
                let c = choose|c: int| is_first_sep(s, c);
                lemma_first_sep_unique(s, i as int, c);
                assert(k@ =~= s.take(i as int));
                assert(v@ =~= s.skip(i + 1));
            }
            return Ok((k, v));
        }
        i += 1;
    }
    Err(InputError::MissingSeparator(input.to_owned()))
}

/// Reads `true` or `false`; anything else gives `None`.
pub fn parse_bool(s: &str) -> (r: Option<bool>)
    ensures
        r == bool_of(s@),
{
    let t = s.to_owned();
    if t == "true".to_owned() {
        Some(true)
    } else if t == "false".to_owned() {
        Some(false)
    } else {
        None
    }
}

proof fn lemma_first_sep_exists(s: Seq<char>, i: int)
    requires
        0 <= i < s.len(),
        s[i] == '=',
    ensures
        exists|c: int| is_first_sep(s, c),
    decreases i,
{
    if exists|j: int| 0 <= j < i && s[j] == '=' {
        let j = choose|j: int| 0 <= j < i && s[j] == '=';
        lemma_first_sep_exists(s, j);
    } else {
        assert(is_first_sep(s, i));
    }
}

/// Splitting a token that holds `=`: it succeeds, the key is everything
/// before the first `=` (so it holds no `=`), and the value is everything
/// after that `=` (it may hold more of them).
pub proof fn lemma_split_with_sep(s: Seq<char>)
    requires
        s.contains('='),
    ensures
        match split_at_sep(s) {
            Some((k, v)) => s == k + seq!['='] + v && !k.contains('='),
            None => false,
        },
{
    let i = choose|i: int| 0 <= i < s.len() && s[i] == '=';
    lemma_first_sep_exists(s, i);
    let c = choose|c: int| is_first_sep(s, c);
    let k = s.take(c);
    let v = s.skip(c + 1);
    assert(s =~= k + seq!['='] + v);
    assert(!k.contains('=')) by {
        if k.contains('=') {
            let j = choose|j: int| 0 <= j < k.len() && k[j] == '=';
            assert(s[j] == '=');
        }
    }
}

/// Splitting a token without `=` fails.
pub proof fn lemma_split_without_sep(s: Seq<char>)
    requires
        !s.contains('='),
    ensures
        split_at_sep(s) is None,
{
    if exists|c: int| is_first_sep(s, c) {
        let c = choose|c: int| is_first_sep(s, c);
        assert(s[c] == '=');
    }
}

/// The value of a workflow variable, as a value.
pub enum InputVal {
    Str(Seq<char>),
    Bool(bool),
}

/// The value of a workflow variable: a string, or a boolean that is sent as a
/// boolean and not as its spelling.
#[derive(Debug, Clone, PartialEq, Eq)]
pub enum InputValue {
    Str(String),
    Bool(bool),
}

impl View for InputValue {
    type V = InputVal;

    open spec fn view(&self) -> InputVal {
        match self {
            InputValue::Str(s) => InputVal::Str(s@),
            InputValue::Bool(b) => InputVal::Bool(*b),
        }
    }
}

/// The map that a sequence of entries stands for; a later entry replaces an
/// earlier one with the same key.
pub open spec fn entries_map(e: Seq<(Seq<char>, InputVal)>) -> Map<Seq<char>, InputVal>
    decreases e.len(),
{
    if e.len() == 0 {
        Map::empty()
    } else {
        entries_map(e.drop_last()).insert(e.last().0, e.last().1)
    }
}

/// No two entries share a key.
pub open spec fn keys_unique(e: Seq<(Seq<char>, InputVal)>) -> bool {
    forall|i: int, j: int| 0 <= i < j < e.len() ==> e[i].0 != e[j].0
}

proof fn lemma_entries_map_update(e: Seq<(Seq<char>, InputVal)>, j: int, v: InputVal)
    requires
        keys_unique(e),
        0 <= j < e.len(),
    ensures
        entries_map(e.update(j, (e[j].0, v))) == entries_map(e).insert(e[j].0, v),
    decreases e.len(),
{
    let u = e.update(j, (e[j].0, v));
    let d = e.drop_last();
    if j == e.len() - 1 {
        assert(u.drop_last() =~= d);
        assert(entries_map(u) =~= entries_map(e).insert(e[j].0, v));
    } else {
        assert(u.drop_last() =~= d.update(j, (d[j].0, v)));
        lemma_entries_map_update(d, j, v);
        assert(e.last().0 != e[j].0);
        assert(entries_map(u) =~= entries_map(e).insert(e[j].0, v));
    }
}

/// Workflow variables, keyed by name; each key at most once, in the order in
/// which keys were first given.
#[derive(Debug, PartialEq, Eq)]
pub struct Inputs {
    entries: Vec<(String, InputValue)>,
}

impl Inputs {
    /// The entries, in order.
    pub closed spec fn entries_view(&self) -> Seq<(Seq<char>, InputVal)> {
        entries_view_of(self.entries@)
    }

    /// The variables, as a map from key to value.
    pub open spec fn view_map(&self) -> Map<Seq<char>, InputVal> {
        entries_map(self.entries_view())
    }

    #[verifier::type_invariant]
    spec fn keys_are_unique(&self) -> bool {
        keys_unique(entries_view_of(self.entries@))
    }

    /// No variables.
    pub fn new() -> (r: Inputs)
        ensures
            r.view_map() == Map::<Seq<char>, InputVal>::empty(),
            r.entries_view().len() == 0,
    {
        let entries: Vec<(String, InputValue)> = Vec::new();
        assert(entries_view_of(entries@) =~= Seq::empty());
        Inputs { entries }
    }

    /// Sets `key` to `value`, replacing any value that it had; a new key goes
    /// after the others.
    pub fn insert(&mut self, key: String, value: InputValue)
        ensures
            final(self).view_map() == old(self).view_map().insert(key@, value@),
    {
        proof {
            use_type_invariant(&*self);
        }
        let mut entries: Vec<(String, InputValue)> = Vec::new();
        std::mem::swap(&mut entries, &mut self.entries);
        let ghost e = entries_view_of(entries@);
        assert(e == old(self).entries_view());
        let n = entries.len();
        let mut i: usize = 0;
        while i < n
            invariant
                n == entries@.len(),
                e == entries_view_of(entries@),
                e == old(self).entries_view(),
                keys_unique(e),
                i <= n,
                forall|j: int| 0 <= j < i ==> e[j].0 != key@,
            decreases n - i,
        {
            assert(e[i as int].0 == entries@[i as int].0@);
            if entries[i].0 == key {
                let ghost kv = (key@, value@);
                entries.set(i, (key, value));
                proof {
                    assert(entries_view_of(entries@) =~= e.update(i as int, kv));
                    assert(keys_unique(entries_view_of(entries@)));
                    assert(kv == (e[i as int].0, value@));
                    lemma_entries_map_update(e, i as int, value@);
                }
                self.entries = entries;
                return;
            }
            i += 1;
        }
        entries.push((key, value));
        proof {
            let ne = entries_view_of(entries@);
            assert(ne =~= e.push((key@, value@)));
            assert(ne.drop_last() =~= e);
        }
        self.entries = entries;
    }

    /// The value of `key`, if it is set.
    pub fn get(&self, key: &str) -> (r: Option<&InputValue>)
        ensures
            match r {
                Some(v) => self.view_map().contains_key(key@) && self.view_map()[key@] == v@,
                None => !self.view_map().contains_key(key@),
            },
    {
        proof {
            use_type_invariant(self);
        }
        let ghost e = self.entries_view();
        let wanted = key.to_owned();
        let n = self.entries.len();
        let mut i: usize = 0;
        while i < n
            invariant
                n == self.entries@.len(),
                e == self.entries_view(),
                keys_unique(e),
                wanted@ == key@,
                i <= n,
                forall|j: int| 0 <= j < i ==> e[j].0 != key@,
            decreases n - i,
        {
            assert(e[i as int].0 == self.entries@[i as int].0@);
            if self.entries[i].0 == wanted {
                proof {
                    lemma_entries_map_index(e, i as int);
                }
                return Some(&self.entries[i].1);
            }
            i += 1;
        }
        proof {
            lemma_entries_map_keys(e, key@);
        }
        None
    }

    /// The number of variables.
    pub fn len(&self) -> (r: usize)
        ensures
            r == self.view_map().len(),
    {
        proof {
            use_type_invariant(self);
            lemma_entries_map_len(self.entries_view());
        }
        self.entries.len()
    }

    /// The entries as key and value, in order; no key twice.
    pub fn entries(&self) -> (r: &[(String, InputValue)])
        ensures
            entries_view_of(r@) == self.entries_view(),
            keys_unique(self.entries_view()),
    {
        proof {
            use_type_invariant(self);
        }
        self.entries.as_slice()
    }
}

/// The entries of a list of keys and values, as values.
pub open spec fn entries_view_of(v: Seq<(String, InputValue)>) -> Seq<(Seq<char>, InputVal)> {
    v.map_values(|p: (String, InputValue)| (p.0@, p.1@))
}

proof fn lemma_entries_map_index(e: Seq<(Seq<char>, InputVal)>, i: int)
    requires
        keys_unique(e),
        0 <= i < e.len(),
    ensures
        entries_map(e).contains_key(e[i].0),
        entries_map(e)[e[i].0] == e[i].1,
    decreases e.len(),
{
    if i < e.len() - 1 {
        let d = e.drop_last();
        lemma_entries_map_index(d, i);
        assert(e.last().0 != e[i].0);
    }
}

proof fn lemma_entries_map_keys(e: Seq<(Seq<char>, InputVal)>, k: Seq<char>)
    ensures
        entries_map(e).contains_key(k) <==> exists|i: int| 0 <= i < e.len() && e[i].0 == k,
    decreases e.len(),
{
    if e.len() > 0 {
        let d = e.drop_last();
        lemma_entries_map_keys(d, k);
        if exists|i: int| 0 <= i < d.len() && d[i].0 == k {
            let i = choose|i: int| 0 <= i < d.len() && d[i].0 == k;
            assert(e[i].0 == k);
        }
        if exists|i: int| 0 <= i < e.len() && e[i].0 == k {
            let i = choose|i: int| 0 <= i < e.len() && e[i].0 == k;
            if i < e.len() - 1 {
                assert(d[i].0 == k);
            }
        }
    }
}

proof fn lemma_entries_map_len(e: Seq<(Seq<char>, InputVal)>)
    requires
        keys_unique(e),
    ensures
        entries_map(e).dom().finite(),
        entries_map(e).len() == e.len(),
    decreases e.len(),
{
    if e.len() > 0 {
        let d = e.drop_last();
        lemma_entries_map_len(d);
        lemma_entries_map_keys(d, e.last().0);
        if entries_map(d).contains_key(e.last().0) {
            let i = choose|i: int| 0 <= i < d.len() && d[i].0 == e.last().0;
            assert(e[i].0 == e[e.len() - 1].0);
        }
    }
}

/// The characters of each string, in order.
pub open spec fn views_of(v: Seq<String>) -> Seq<Seq<char>> {
    v.map_values(|s: String| s@)
}

/// The characters of each string of a list that may be absent.
pub open spec fn opt_views_of(o: Option<Vec<String>>) -> Option<Seq<Seq<char>>> {
    match o {
        Some(v) => Some(views_of(v@)),
        None => None,
    }
}

/// The entry that a `key=value` token gives: the value kept as text, or read
/// as a boolean when `as_bool` holds.
pub open spec fn entry_of(token: Seq<char>, as_bool: bool) -> Result<(Seq<char>, InputVal), InputFault> {
    match split_at_sep(token) {
        None => Err(InputFault::MissingSeparator(token)),
        Some((k, v)) => if !is_var_key(k) {
            Err(InputFault::InvalidKey(k))
        } else if !as_bool {
            Ok((k, InputVal::Str(v)))
        } else {
            match bool_of(v) {
                Some(b) => Ok((k, InputVal::Bool(b))),
                None => Err(InputFault::InvalidBool(v)),
            }
        },
    }
}

/// `m` with the entries of `tokens` set in order; the first bad token stops it.
pub open spec fn add_entries(
    m: Map<Seq<char>, InputVal>,
    tokens: Seq<Seq<char>>,
    as_bool: bool,
) -> Result<Map<Seq<char>, InputVal>, InputFault>
    decreases tokens.len(),
{
    if tokens.len() == 0 {
        Ok(m)
    } else {
        match entry_of(tokens[0], as_bool) {
            Ok((k, v)) => add_entries(m.insert(k, v), tokens.drop_first(), as_bool),
            Err(e) => Err(e),
        }
    }
}

/// The variables of a dispatch: none when neither list is given; else the
/// string tokens and then the boolean tokens, set in order, a later key
/// replacing an earlier one.
pub open spec fn inputs_of(
    strings: Option<Seq<Seq<char>>>,
    bools: Option<Seq<Seq<char>>>,
) -> Result<Option<Map<Seq<char>, InputVal>>, InputFault> {
    if strings is None && bools is None {
        Ok(None)
    } else {
        let s = match strings {
            Some(s) => s,
            None => Seq::empty(),
        };
        let b = match bools {
            Some(b) => b,
            None => Seq::empty(),
        };
        match add_entries(Map::empty(), s, false) {
            Ok(m) => match add_entries(m, b, true) {
                Ok(m2) => Ok(Some(m2)),
                Err(e) => Err(e),
            },
            Err(e) => Err(e),
        }
    }
}

fn entry_of_token(token: &str, as_bool: bool) -> (r: Result<(String, InputValue), InputError>)
    ensures
        match r {
            Ok((k, v)) => entry_of(token@, as_bool) == Ok::<_, InputFault>((k@, v@)),
            Err(e) => entry_of(token@, as_bool) == Err::<(Seq<char>, InputVal), _>(e@),
        },
{
    let (k, v) = match split_input(token) {
        Ok(kv) => kv,
        Err(e) => return Err(e),
    };
    if !valid_workflow_var_key(k) {
        return Err(InputError::InvalidKey(k.to_owned()));
    }
    if !as_bool {
        return Ok((k.to_owned(), InputValue::Str(v.to_owned())));
    }
    match parse_bool(v) {
        Some(b) => Ok((k.to_owned(), InputValue::Bool(b))),
        None => Err(InputError::InvalidBool(v.to_owned())),
    }
}

fn add_tokens(m: &mut Inputs, tokens: &Vec<String>, as_bool: bool) -> (r: Result<(), InputError>)
    ensures
        match r {
            Ok(()) => add_entries(old(m).view_map(), views_of(tokens@), as_bool) == Ok::<_, InputFault>(
                final(m).view_map(),
            ),
            Err(e) => add_entries(old(m).view_map(), views_of(tokens@), as_bool) == Err::<
                Map<Seq<char>, InputVal>,
                _,
            >(e@),
        },
{
    let ghost all = views_of(tokens@);
    let ghost start = m.view_map();
    let n = tokens.len();
    let mut i: usize = 0;
    assert(all.skip(0) =~= all);
    while i < n
        invariant
            n == tokens@.len(),
            all == views_of(tokens@),
            start == old(m).view_map(),
            i <= n,
            add_entries(start, all, as_bool) == add_entries(m.view_map(), all.skip(i as int), as_bool),
        decreases n - i,
    {
        let ghost rest = all.skip(i as int);
        assert(rest[0] == tokens@[i as int]@);
        assert(rest.drop_first() =~= all.skip(i + 1));
        let ghost before = m.view_map();
        match entry_of_token(tokens[i].as_str(), as_bool) {
            Ok((k, v)) => {
                assert(add_entries(before, rest, as_bool) == add_entries(
                    before.insert(k@, v@),
                    rest.drop_first(),
                    as_bool,
                ));
                m.insert(k, v);
            },
            Err(e) => {
                assert(add_entries(before, rest, as_bool) == Err::<Map<Seq<char>, InputVal>, _>(e@));
                return Err(e);
            },
        }
        i += 1;
    }
    assert(all.skip(n as int) =~= Seq::<Seq<char>>::empty());
    Ok(())
}

/// Turns the `key=value` tokens of string and boolean workflow variables into
/// typed variables. No variables at all when neither list is given; else the
/// string tokens and then the boolean tokens are set in order, a later key
/// replacing an earlier one. The first bad token, a bad key or a value that is
/// not a boolean gives its error.
pub fn collect_inputs(
    input_string: Option<Vec<String>>,
    input_bool: Option<Vec<String>>,
) -> (r: Result<Option<Inputs>, InputError>)
    ensures
        match r {
            Ok(None) => inputs_of(opt_views_of(input_string), opt_views_of(input_bool)) == Ok::<
                _,
                InputFault,
            >(None::<Map<Seq<char>, InputVal>>),
            Ok(Some(m)) => inputs_of(opt_views_of(input_string), opt_views_of(input_bool))
                == Ok::<_, InputFault>(Some(m.view_map())),
            Err(e) => inputs_of(opt_views_of(input_string), opt_views_of(input_bool)) == Err::<
                Option<Map<Seq<char>, InputVal>>,
                _,
            >(e@),
        },
{
    if input_string.is_none() && input_bool.is_none() {
        return Ok(None);
    }
    let mut m = Inputs::new();
    let ghost empty_tokens = Seq::<Seq<char>>::empty();
    match &input_string {
        Some(tokens) => {
            match add_tokens(&mut m, tokens, false) {
                Ok(()) => {},
                Err(e) => return Err(e),
            }
        },
        None => {
            assert(add_entries(m.view_map(), empty_tokens, false) == Ok::<_, InputFault>(m.view_map()));
        },
    }
    match &input_bool {
        Some(tokens) => {
            match add_tokens(&mut m, tokens, true) {
                Ok(()) => {},
                Err(e) => return Err(e),
            }
        },
        None => {
            assert(add_entries(m.view_map(), empty_tokens, true) == Ok::<_, InputFault>(m.view_map()));
        },
    }
    Ok(Some(m))
}

/// The text that reports a fault to the user.
pub open spec fn fault_message(f: InputFault) -> Seq<char> {
    match f {
        InputFault::MissingSeparator(_) => "Failed to get the value from string input"@,
        InputFault::InvalidScanName(n) => "Invalid scan name: '"@ + n + "'"@,
        InputFault::InvalidKey(k) => "Key '"@ + k + "' is in invalid format"@,
        InputFault::InvalidBool(v) => "Value '"@ + v + "' is not a valid boolean"@,
    }
}

impl InputError {
    /// The text that reports this error to the user.
    pub fn message(&self) -> (r: String)
        ensures
            r@ == fault_message(self@),
    {
        match self {
            InputError::MissingSeparator(_) => "Failed to get the value from string input".to_owned(),
            InputError::InvalidScanName(n) => "Invalid scan name: '".to_owned().concat(n.as_str()).concat(
                "'",
            ),
            InputError::InvalidKey(k) => "Key '".to_owned().concat(k.as_str()).concat(
                "' is in invalid format",
            ),
            InputError::InvalidBool(v) => "Value '".to_owned().concat(v.as_str()).concat(
                "' is not a valid boolean",
            ),
        }
    }
}

} // verus!

//! The global environment: bindings for free variables and display strings.
use vstd::prelude::*;
use vstd::string::*;
use crate::expr::{same_text, Expr, Native};

verus! {

/// The map that a list of bindings stands for: a later binding of a name
/// overrides an earlier one.
pub open spec fn bindings<V>(s: Seq<(String, V)>) -> Map<Seq<char>, V>
    decreases s.len(),
{
    if s.len() == 0 {
        Map::empty()
    } else {
        bindings(s.drop_last()).insert(s.last().0@, s.last().1)
    }
}

/// Whether no binding after position `i` is for `key`.
pub open spec fn last_for<V>(s: Seq<(String, V)>, key: Seq<char>, i: int) -> bool {
    forall|j: int| i < j < s.len() ==> #[trigger] s[j].0@ != key
}

proof fn lemma_bindings_at<V>(s: Seq<(String, V)>, key: Seq<char>, i: int)
    requires
        0 <= i < s.len(),
        s[i].0@ == key,
        last_for(s, key, i),
    ensures
        bindings(s).contains_key(key),
        bindings(s)[key] == s[i].1,
    decreases s.len(),
{
    if i < s.len() - 1 {
        assert(s.drop_last()[i] == s[i]);
        assert forall|j: int| i < j < s.drop_last().len() implies #[trigger] s.drop_last()[j].0@ != key by {
            assert(s.drop_last()[j] == s[j]);
        }
        lemma_bindings_at(s.drop_last(), key, i);
        assert(s[s.len() - 1].0@ != key);
    }
}

proof fn lemma_bindings_absent<V>(s: Seq<(String, V)>, key: Seq<char>)
    requires
        last_for(s, key, -1),
    ensures
        !bindings(s).contains_key(key),
    decreases s.len(),
{
    if s.len() > 0 {
        assert forall|j: int| -1 < j < s.drop_last().len() implies #[trigger] s.drop_last()[j].0@ != key by {
            assert(s.drop_last()[j] == s[j]);
        }
        lemma_bindings_absent(s.drop_last(), key);
        assert(s[s.len() - 1].0@ != key);
    }
}

/// The position of the binding of `key` that is in force, searching from the end.
fn find<V>(s: &Vec<(String, V)>, key: &str) -> (r: Option<usize>)
    ensures
        match r {
            Some(i) => {
                &&& i < s@.len()
                &&& bindings(s@).contains_key(key@)
                &&& bindings(s@)[key@] == s@[i as int].1
            },
            None => !bindings(s@).contains_key(key@),
        },
{
    let mut i: usize = s.len();
    while i > 0
        invariant
            i <= s@.len(),
            last_for(s@, key@, i as int - 1),
        decreases i,
    {
        if same_text(s[i - 1].0.as_str(), key) {
            proof {
                lemma_bindings_at(s@, key@, i - 1);
            }
            return Some(i - 1);
        }
        i = i - 1;
    }
    proof {
        lemma_bindings_absent(s@, key@);
    }
    None
}

/// Global bindings available to free variables, and the display strings that
/// the print native uses for named lambdas.
#[derive(Debug)]
pub struct Context {
    globals: Vec<(String, Expr)>,
    display: Vec<(String, String)>,
}

impl Context {
    /// Name to bound term.
    pub closed spec fn globals_map(&self) -> Map<Seq<char>, Expr> {
        bindings(self.globals@)
    }

    /// Name to display string.
    pub closed spec fn display_map(&self) -> Map<Seq<char>, String> {
        bindings(self.display@)
    }

    /// An environment with no bindings.
    pub fn new() -> (r: Context)
        ensures
            r.globals_map() == Map::<Seq<char>, Expr>::empty(),
            r.display_map() == Map::<Seq<char>, String>::empty(),
    {
        Context { globals: Vec::new(), display: Vec::new() }
    }

    /// Binds `name` to `value`, replacing any earlier binding of it.
    pub fn insert_global(&mut self, name: String, value: Expr)
        ensures
            final(self).globals_map() == old(self).globals_map().insert(name@, value),
            final(self).display_map() == old(self).display_map(),
    {
        self.globals.push((name, value));
        assert(self.globals@.drop_last() == old(self).globals@);
    }

    /// Sets the text that the print native shows for a lambda labelled `name`.
    pub fn insert_display(&mut self, name: String, text: String)
        ensures
            final(self).display_map() == old(self).display_map().insert(name@, text),
            final(self).globals_map() == old(self).globals_map(),
    {
        self.display.push((name, text));
        assert(self.display@.drop_last() == old(self).display@);
    }

    /// A copy of the term bound to `name`, if any.
    pub fn lookup(&self, name: &str) -> (r: Option<Expr>)
        ensures
            r == (if self.globals_map().contains_key(name@) {
                Some(self.globals_map()[name@])
            } else {
                None
            }),
    {
        match find(&self.globals, name) {
            Some(i) => Some(self.globals[i].1.duplicate()),
            None => None,
        }
    }

    /// The display string set for `name`, if any.
    pub fn display_of(&self, name: &str) -> (r: Option<&String>)
        ensures
            r == (if self.display_map().contains_key(name@) {
                Some(&self.display_map()[name@])
            } else {
                None
            }),
    {
        match find(&self.display, name) {
            Some(i) => Some(&self.display[i].1),
            None => None,
        }
    }
}

/// The environment every program starts from: `halt` bound to the halt
/// sentinel and `?` bound to the print native.
pub fn builtins() -> (r: Context)
    ensures
        r.globals_map() == map![
            "halt"@ => Expr::Halt,
            "?"@ => Expr::Builtin(Native::Print),
        ],
        r.display_map() == Map::<Seq<char>, String>::empty(),
{
    let mut context = Context::new();
    context.insert_global(String::from_str("halt"), Expr::Halt);
    context.insert_global(String::from_str("?"), Expr::Builtin(Native::Print));
    context
}

} // verus!

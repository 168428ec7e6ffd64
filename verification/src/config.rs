//! Configuration: the options a context is opened with.

use vstd::prelude::*;
use vstd::string::*;
use crate::text::{decimal, decimal_string, text_is_ok, text_ok};

verus! {

/// Configuration used to initialize logical contexts.
///
/// A configuration is an ordered list of key/value pairs. It starts empty,
/// grows by one pair with every `set_*` call, and is read when a context is
/// opened with it.
pub struct Config {
    kvs: Vec<(String, String)>,
}

/// The text that a boolean option is set to.
pub open spec fn bool_text(v: bool) -> Seq<char> {
    if v {
        "true"@
    } else {
        "false"@
    }
}

/// Whether both halves of a pair can be handed to the engine.
pub open spec fn pair_ok(p: (Seq<char>, Seq<char>)) -> bool {
    text_ok(p.0) && text_ok(p.1)
}

/// Whether every pair of a list can be handed to the engine.
pub open spec fn pairs_ok(ps: Seq<(Seq<char>, Seq<char>)>) -> bool {
    forall|i: int| 0 <= i < ps.len() ==> pair_ok(#[trigger] ps[i])
}

/// Whether `i` is the position of the first pair that cannot be handed to
/// the engine.
pub open spec fn first_bad_pair(ps: Seq<(Seq<char>, Seq<char>)>, i: int) -> bool {
    &&& 0 <= i < ps.len()
    &&& !pair_ok(ps[i])
    &&& pairs_ok(ps.take(i))
}

impl View for Config {
    type V = Seq<(Seq<char>, Seq<char>)>;

    closed spec fn view(&self) -> Seq<(Seq<char>, Seq<char>)> {
        Seq::new(self.kvs@.len(), |i: int| (self.kvs@[i].0@, self.kvs@[i].1@))
    }
}

impl Config {
    /// An empty configuration.
    pub fn new() -> (r: Config)
        ensures
            r@ == Seq::<(Seq<char>, Seq<char>)>::empty(),
    {
        Config { kvs: Vec::new() }
    }

    /// Appends the pair `(k, v)`. Earlier pairs stay in place, also one
    /// with the same key.
    pub fn set_param_value(&mut self, k: &str, v: &str)
        ensures
            final(self)@ == old(self)@.push((k@, v@)),
    {
        let ks = String::from_str(k);
        let vs = String::from_str(v);
        self.kvs.push((ks, vs));
    }

    /// Appends `(k, "true")` or `(k, "false")`.
    pub fn set_bool_param_value(&mut self, k: &str, v: bool)
        ensures
            final(self)@ == old(self)@.push((k@, bool_text(v))),
    {
        self.set_param_value(
            k,
            if v {
                "true"
            } else {
                "false"
            },
        );
    }

    /// Turns proof generation on or off.
    pub fn set_proof_generation(&mut self, b: bool)
        ensures
            final(self)@ == old(self)@.push(("proof"@, bool_text(b))),
    {
        self.set_bool_param_value("proof", b);
    }

    /// Turns model generation on or off.
    pub fn set_model_generation(&mut self, b: bool)
        ensures
            final(self)@ == old(self)@.push(("model"@, bool_text(b))),
    {
        self.set_bool_param_value("model", b);
    }

    /// Turns the engine's reference-count debugging on or off.
    pub fn set_debug_ref_count(&mut self, b: bool)
        ensures
            final(self)@ == old(self)@.push(("debug_ref_count"@, bool_text(b))),
    {
        self.set_bool_param_value("debug_ref_count", b);
    }

    /// Sets the default timeout of solvers, in milliseconds.
    pub fn set_timeout_msec(&mut self, ms: u64)
        ensures
            final(self)@ == old(self)@.push(("timeout"@, decimal(ms as nat))),
    {
        let text = decimal_string(ms);
        self.set_param_value("timeout", text.as_str());
    }

    /// The number of pairs.
    pub fn len(&self) -> (r: usize)
        ensures
            r == self@.len(),
    {
        self.kvs.len()
    }

    /// The key of the pair at position `i`.
    pub fn key(&self, i: usize) -> (r: &str)
        requires
            i < self@.len(),
        ensures
            r@ == self@[i as int].0,
    {
        self.kvs[i].0.as_str()
    }

    /// The value of the pair at position `i`.
    pub fn value(&self, i: usize) -> (r: &str)
        requires
            i < self@.len(),
        ensures
            r@ == self@[i as int].1,
    {
        self.kvs[i].1.as_str()
    }

    /// The position of the first pair whose key or value holds a NUL
    /// character, if there is one.
    pub fn first_malformed(&self) -> (r: Option<usize>)
        ensures
            match r {
                Some(i) => first_bad_pair(self@, i as int),
                None => pairs_ok(self@),
            },
    {
        let n: usize = self.kvs.len();
        let mut i: usize = 0;
        while i < n
            invariant
                n == self@.len(),
                i <= n,
                pairs_ok(self@.take(i as int)),
            decreases n - i,
        {
            let good = text_is_ok(self.key(i)) && text_is_ok(self.value(i));
            if !good {
                return Some(i);
            }
            i += 1;
        }
        assert(self@.take(n as int) =~= self@);
        None
    }
}

} // verus!

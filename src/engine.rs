use vstd::prelude::*;

verus! {

/// The module name a guest is registered under when its entrypoint names
/// none.
pub const DEFAULT_MODULE_NAME: &'static str = "main";

/// The name the guest module is registered under: the entrypoint's own, or
/// the default.
pub fn entry_module_name(name: Option<String>) -> (r: String)
    ensures
        r@ == match name {
            Some(n) => n@,
            None => DEFAULT_MODULE_NAME@,
        },
{
    match name {
        Some(n) => n,
        None => String::from_str(DEFAULT_MODULE_NAME),
    }
}

/// One environment entry handed to a guest, written `key=value`.
pub fn env_entry(key: &str, value: &str) -> (r: String)
    ensures
        r@ == key@ + seq!['='] + value@,
{
    let mut out = String::from_str(key);
    out.append("=");
    out.append(value);
    proof {
        reveal_strlit("=");
    }
    out
}

/// The environment entries handed to a guest, one `key=value` per pair, in
/// order.
pub fn env_entries(vars: &Vec<(String, String)>) -> (r: Vec<String>)
    ensures
        r@.len() == vars@.len(),
        forall|i: int|
            0 <= i < vars@.len() ==> #[trigger] r@[i]@ == vars@[i].0@ + seq!['='] + vars@[i].1@,
{
    let mut out: Vec<String> = Vec::new();
    let mut i: usize = 0;
    while i < vars.len()
        invariant
            i <= vars@.len(),
            out@.len() == i,
            forall|j: int|
                0 <= j < i ==> #[trigger] out@[j]@ == vars@[j].0@ + seq!['='] + vars@[j].1@,
        decreases vars@.len() - i,
    {
        let entry = env_entry(vars[i].0.as_str(), vars[i].1.as_str());
        out.push(entry);
        i = i + 1;
    }
    out
}

} // verus!

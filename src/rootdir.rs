use vstd::prelude::*;

verus! {

/// The runtime-state root used when the bundle names none.
pub const DEFAULT_CONTAINER_ROOT_DIR: &'static str = "/run/containerd/wasmtime";

/// The name of the optional options file inside a bundle.
pub const OPTIONS_FILE_NAME: &'static str = "options.json";

/// Path joining on Unix: an absolute segment replaces the base; otherwise
/// the segment is appended, with a separator added when the base is
/// non-empty and does not already end in one.
pub open spec fn path_join(base: Seq<char>, seg: Seq<char>) -> Seq<char> {
    if seg.len() > 0 && seg[0] == '/' {
        seg
    } else if base.len() == 0 || base[base.len() - 1] == '/' {
        base + seg
    } else {
        base + seq!['/'] + seg
    }
}

/// Joins `seg` onto `base` as a Unix path.
pub fn join_path(base: &str, seg: &str) -> (r: String)
    ensures
        r@ == path_join(base@, seg@),
{
    let seg_len = seg.unicode_len();
    if seg_len > 0 && seg.get_char(0) == '/' {
        return String::from_str(seg);
    }
    let mut out = String::from_str(base);
    let base_len = base.unicode_len();
    if base_len > 0 && base.get_char(base_len - 1) != '/' {
        out.append("/");
    }
    out.append(seg);
    proof {
        reveal_strlit("/");
    }
    out
}

/// The contents of a bundle's options file that this runtime reads.
pub struct Options {
    pub root: Option<String>,
}

/// The root directory an options file selects before the namespace is
/// appended: its `root` field when present, the default otherwise. A
/// missing file (`None`) selects the default.
pub open spec fn selected_root(options: Option<Options>) -> Seq<char> {
    match options {
        Some(o) => match o.root {
            Some(r) => r@,
            None => DEFAULT_CONTAINER_ROOT_DIR@,
        },
        None => DEFAULT_CONTAINER_ROOT_DIR@,
    }
}

/// The path of the options file of the bundle at `bundle`.
pub fn options_path(bundle: &str) -> (r: String)
    ensures
        r@ == path_join(bundle@, OPTIONS_FILE_NAME@),
{
    join_path(bundle, OPTIONS_FILE_NAME)
}

/// Resolves the runtime-state root directory of an instance: the root that
/// the bundle's options select, joined with the namespace. `options` is
/// `None` when the bundle holds no options file.
pub fn determine_rootdir(options: &Option<Options>, namespace: &str) -> (r: String)
    ensures
        r@ == path_join(selected_root(*options), namespace@),
{
    match options {
        Some(o) => match &o.root {
            Some(root) => join_path(root.as_str(), namespace),
            None => join_path(DEFAULT_CONTAINER_ROOT_DIR, namespace),
        },
        None => join_path(DEFAULT_CONTAINER_ROOT_DIR, namespace),
    }
}

} // verus!

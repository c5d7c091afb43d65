use vstd::prelude::*;
use vstd::string::StrSliceExecFns;
use crate::json::{pair_texts, texts};

verus! {

broadcast use vstd::std_specs::vec::group_vec_axioms;

/// The command-line options.
#[derive(Debug, PartialEq)]
pub struct Args {
    pub pod_query: String,
    pub namespace: Option<String>,
    pub selector: Option<String>,
    pub keys: Vec<String>,
    pub filters: Vec<(String, String)>,
    pub separator: bool,
    pub padding: bool,
}

/// Why the command line gives no options to run with.
#[derive(Debug, PartialEq)]
pub enum ArgsError {
    /// Help was asked for, or no pod query was given.
    Help,
    /// This option is last and lacks its value.
    MissingValue(String),
    /// `-k` is followed by no key.
    NoKeys,
    /// `-f` is not followed by a key and a value.
    NoFilter,
}

/// The model of an argument error.
pub enum ArgsErrorV {
    Help,
    MissingValue(Seq<char>),
    NoKeys,
    NoFilter,
}

impl View for ArgsError {
    type V = ArgsErrorV;

    open spec fn view(&self) -> ArgsErrorV {
        match self {
            ArgsError::Help => ArgsErrorV::Help,
            ArgsError::MissingValue(s) => ArgsErrorV::MissingValue(s@),
            ArgsError::NoKeys => ArgsErrorV::NoKeys,
            ArgsError::NoFilter => ArgsErrorV::NoFilter,
        }
    }
}

/// The options gathered so far, after the pod query.
pub struct Scan {
    pub namespace: Option<Seq<char>>,
    pub selector: Option<Seq<char>>,
    pub keys: Seq<Seq<char>>,
    pub filters: Seq<(Seq<char>, Seq<char>)>,
    pub separator: bool,
    pub padding: bool,
}

/// No option given yet.
pub open spec fn no_options() -> Scan {
    Scan {
        namespace: None,
        selector: None,
        keys: Seq::empty(),
        filters: Seq::empty(),
        separator: false,
        padding: false,
    }
}

/// An argument that starts with `-`.
pub open spec fn is_option(s: Seq<char>) -> bool {
    s.len() > 0 && s[0] == '-'
}

/// Gathers the keys from position `j` up to the next option or the end,
/// then goes on with the options from there.
pub open spec fn scan_keys(a: Seq<Seq<char>>, j: int, acc: Scan) -> Result<Scan, ArgsErrorV>
    decreases a.len() - j, 1int,
{
    if j < 0 || j >= a.len() || is_option(a[j]) {
        scan(a, j, acc)
    } else {
        scan_keys(a, j + 1, Scan { keys: acc.keys.push(a[j]), ..acc })
    }
}

/// The options of the arguments from position `i` on, added to `acc`.
/// Arguments that are no known option are passed over.
pub open spec fn scan(a: Seq<Seq<char>>, i: int, acc: Scan) -> Result<Scan, ArgsErrorV>
    decreases a.len() - i, 0int,
{
    if i < 0 || i >= a.len() {
        Ok(acc)
    } else {
        let f = a[i];
        if f == "-n"@ || f == "--namespace"@ {
            if i + 1 < a.len() {
                scan(a, i + 2, Scan { namespace: Some(a[i + 1]), ..acc })
            } else {
                Err(ArgsErrorV::MissingValue(f))
            }
        } else if f == "-s"@ || f == "--selector"@ {
            if i + 1 < a.len() {
                scan(a, i + 2, Scan { selector: Some(a[i + 1]), ..acc })
            } else {
                Err(ArgsErrorV::MissingValue(f))
            }
        } else if f == "-k"@ || f == "--keys"@ {
            if i + 1 >= a.len() || is_option(a[i + 1]) {
                Err(ArgsErrorV::NoKeys)
            } else {
                scan_keys(a, i + 1, acc)
            }
        } else if f == "-f"@ || f == "--filter"@ {
            if i + 2 < a.len() {
                scan(a, i + 3, Scan { filters: acc.filters.push((a[i + 1], a[i + 2])), ..acc })
            } else {
                Err(ArgsErrorV::NoFilter)
            }
        } else if f == "--separator"@ {
            scan(a, i + 1, Scan { separator: true, ..acc })
        } else if f == "--padding"@ {
            scan(a, i + 1, Scan { padding: true, ..acc })
        } else {
            scan(a, i + 1, acc)
        }
    }
}

/// The text of an optional string.
pub open spec fn opt_text(o: Option<String>) -> Option<Seq<char>> {
    match o {
        Some(s) => Some(s@),
        None => None,
    }
}

impl Args {
    /// The options on the command line `args`, whose first element is the
    /// program and whose second is the pod query.
    #[verifier::loop_isolation(false)]
    pub fn new(args: Vec<String>) -> (r: Result<Args, ArgsError>)
        ensures
            wants_help(texts(args@)) ==> (r matches Err(e) && e@ == ArgsErrorV::Help),
            !wants_help(texts(args@)) ==> match scan(texts(args@), 2, no_options()) {
                Ok(sv) => (r matches Ok(x) && x.scan_view() == sv && x.pod_query@ == args@[1]@),
                Err(ev) => (r matches Err(e) && e@ == ev),
            },
    {
        let ghost a = texts(args@);
        if asks_help(&args) {
            return Err(ArgsError::Help);
        }
        let mut namespace: Option<String> = None;
        let mut selector: Option<String> = None;
        let mut keys: Vec<String> = Vec::new();
        let mut filters: Vec<(String, String)> = Vec::new();
        let mut separator = false;
        let mut padding = false;
        let mut i: usize = 2;
        proof {
            assert(texts(keys@) =~= Seq::<Seq<char>>::empty());
            assert(pair_texts(filters@) =~= Seq::<(Seq<char>, Seq<char>)>::empty());
        }
        while i < args.len()
            invariant
                2 <= i <= args@.len(),
                scan(a, 2, no_options()) == scan(
                    a,
                    i as int,
                    Scan {
                        namespace: opt_text(namespace),
                        selector: opt_text(selector),
                        keys: texts(keys@),
                        filters: pair_texts(filters@),
                        separator: separator,
                        padding: padding,
                    },
                ),
            decreases args@.len() - i,
        {
            let f = &args[i];
            assert(a[i as int] == f@);
            if is_text(f, "-n") || is_text(f, "--namespace") || is_text(f, "-s") || is_text(
                f,
                "--selector",
            ) {
                if i + 1 >= args.len() {
                    return Err(ArgsError::MissingValue(f.clone()));
                }
                assert(a[i + 1] == args@[i + 1]@);
                if is_text(f, "-n") || is_text(f, "--namespace") {
                    namespace = Some(args[i + 1].clone());
                } else {
                    selector = Some(args[i + 1].clone());
                }
                i = i + 2;
            } else if is_text(f, "-k") || is_text(f, "--keys") {
                if i + 1 >= args.len() || is_option_arg(&args[i + 1]) {
                    return Err(ArgsError::NoKeys);
                }
                let mut j: usize = i + 1;
                while j < args.len() && !is_option_arg(&args[j])
                    invariant
                        i < j <= args@.len(),
                        scan(a, 2, no_options()) == scan_keys(
                            a,
                            j as int,
                            Scan {
                                namespace: opt_text(namespace),
                                selector: opt_text(selector),
                                keys: texts(keys@),
                                filters: pair_texts(filters@),
                                separator: separator,
                                padding: padding,
                            },
                        ),
                    decreases args@.len() - j,
                {
                    let ghost before = keys@;
                    keys.push(args[j].clone());
                    assert(texts(keys@) =~= texts(before).push(a[j as int]));
                    j = j + 1;
                }
                i = j;
            } else if is_text(f, "-f") || is_text(f, "--filter") {
                if args.len() - i <= 2 {
                    return Err(ArgsError::NoFilter);
                }
                let ghost before = filters@;
                filters.push((args[i + 1].clone(), args[i + 2].clone()));
                assert(pair_texts(filters@) =~= pair_texts(before).push((a[i + 1], a[i + 2])));
                i = i + 3;
            } else if is_text(f, "--separator") {
                separator = true;
                i = i + 1;
            } else if is_text(f, "--padding") {
                padding = true;
                i = i + 1;
            } else {
                i = i + 1;
            }
        }
        Ok(
            Args {
                pod_query: args[1].clone(),
                namespace,
                selector,
                keys,
                filters,
                separator,
                padding,
            },
        )
    }

    /// The options that these fields hold.
    pub open spec fn scan_view(&self) -> Scan {
        Scan {
            namespace: opt_text(self.namespace),
            selector: opt_text(self.selector),
            keys: texts(self.keys@),
            filters: pair_texts(self.filters@),
            separator: self.separator,
            padding: self.padding,
        }
    }
}

/// Whether `a` is the text `lit`.
fn is_text(a: &String, lit: &str) -> (r: bool)
    ensures
        r == (a@ == lit@),
{
    let s = a.as_str();
    let n = s.unicode_len();
    if n != lit.unicode_len() {
        return false;
    }
    let mut i: usize = 0;
    while i < n
        invariant
            n == s@.len(),
            n == lit@.len(),
            s@ == a@,
            i <= n,
            forall|k: int| 0 <= k < i ==> s@[k] == lit@[k],
        decreases n - i,
    {
        if s.get_char(i) != lit.get_char(i) {
            return false;
        }
        i = i + 1;
    }
    assert(s@ =~= lit@);
    true
}

/// Whether `a` starts with `-`.
fn is_option_arg(a: &String) -> (r: bool)
    ensures
        r == is_option(a@),
{
    let s = a.as_str();
    s.unicode_len() > 0 && s.get_char(0) == '-'
}

/// Whether help is asked for: fewer than two arguments, or `-h` or `--help` among them.
pub open spec fn wants_help(a: Seq<Seq<char>>) -> bool {
    a.len() < 2 || a.contains("-h"@) || a.contains("--help"@)
}

fn asks_help(args: &Vec<String>) -> (r: bool)
    ensures
        r == wants_help(texts(args@)),
{
    let ghost a = texts(args@);
    if args.len() < 2 {
        return true;
    }
    let mut i: usize = 0;
    while i < args.len()
        invariant
            i <= args@.len(),
            a == texts(args@),
            forall|k: int| 0 <= k < i ==> a[k] != "-h"@ && a[k] != "--help"@,
        decreases args@.len() - i,
    {
        if is_text(&args[i], "-h") || is_text(&args[i], "--help") {
            assert(a[i as int] == args@[i as int]@);
            return true;
        }
        i = i + 1;
    }
    false
}

} // verus!

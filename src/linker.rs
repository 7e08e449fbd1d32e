use vstd::prelude::*;

verus! {

/// The native toolchains that can link generated object code into a shared
/// object, and `NoLinker` for an engine that never links.
#[derive(Clone, Copy, Debug, PartialEq, Eq, Structural)]
pub enum Linker {
    NoLinker,
    Clang11,
    Clang10,
    Clang,
    Gcc,
}

/// The executable name looked up on the search path for each linker.
pub open spec fn executable_of(l: Linker) -> Seq<char> {
    match l {
        Linker::NoLinker => seq![],
        Linker::Clang11 => seq!['c', 'l', 'a', 'n', 'g', '-', '1', '1'],
        Linker::Clang10 => seq!['c', 'l', 'a', 'n', 'g', '-', '1', '0'],
        Linker::Clang => seq!['c', 'l', 'a', 'n', 'g'],
        Linker::Gcc => seq!['g', 'c', 'c'],
    }
}

impl Linker {
    /// The name of the executable that implements this linker.
    pub fn executable(self) -> (r: &'static str)
        ensures
            r@ == executable_of(self),
    {
        match self {
            Linker::NoLinker => {
                proof { reveal_strlit(""); }
                ""
            },
            Linker::Clang11 => {
                proof { reveal_strlit("clang-11"); }
                "clang-11"
            },
            Linker::Clang10 => {
                proof { reveal_strlit("clang-10"); }
                "clang-10"
            },
            Linker::Clang => {
                proof { reveal_strlit("clang"); }
                "clang"
            },
            Linker::Gcc => {
                proof { reveal_strlit("gcc"); }
                "gcc"
            },
        }
    }
}


/// The linkers to try, most preferred first: several versions of clang when
/// cross-compiling, the system `gcc` otherwise.
pub open spec fn candidates_of(is_cross_compiling: bool) -> Seq<Linker> {
    if is_cross_compiling {
        seq![Linker::Clang11, Linker::Clang10, Linker::Clang]
    } else {
        seq![Linker::Gcc]
    }
}

/// The first candidate whose `installed` flag is set, if any.
pub open spec fn first_installed(candidates: Seq<Linker>, installed: Seq<bool>) -> Option<Linker>
    decreases candidates.len(),
{
    if candidates.len() == 0 || installed.len() == 0 {
        None
    } else if installed[0] {
        Some(candidates[0])
    } else {
        first_installed(candidates.drop_first(), installed.drop_first())
    }
}

/// Linker selection picks the most preferred installed candidate: it is some
/// candidate that is installed and preceded by none that is, and there is no
/// selection exactly when no candidate is installed.
pub proof fn lemma_selection_picks_first_installed(candidates: Seq<Linker>, installed: Seq<bool>)
    requires
        candidates.len() == installed.len(),
    ensures
        match first_installed(candidates, installed) {
            Some(l) => exists|i: int|
                0 <= i < candidates.len() && installed[i] && candidates[i] == l && forall|j: int|
                    0 <= j < i ==> !installed[j],
            None => forall|i: int| 0 <= i < installed.len() ==> !installed[i],
        },
    decreases candidates.len(),
{
    if candidates.len() > 0 && !installed[0] {
        let c = candidates.drop_first();
        let inst = installed.drop_first();
        lemma_selection_picks_first_installed(c, inst);
        match first_installed(c, inst) {
            Some(l) => {
                let i = choose|i: int|
                    0 <= i < c.len() && inst[i] && c[i] == l && forall|j: int|
                        0 <= j < i ==> !inst[j];
                assert(installed[i + 1] && candidates[i + 1] == l);
                assert forall|j: int| 0 <= j < i + 1 implies !installed[j] by {
                    if j > 0 {
                        assert(installed[j] == inst[j - 1]);
                    }
                }
            },
            None => {
                assert forall|i: int| 0 <= i < installed.len() implies !installed[i] by {
                    if i > 0 {
                        assert(installed[i] == inst[i - 1]);
                    }
                }
            },
        }
    }
}

/// Relies on `which::which`: whether an executable of that name is found on
/// the search path. The answer depends on the file system, so nothing is
/// promised of it.
#[verifier::external_body]
fn on_search_path(name: &str) -> (r: bool) {
    which::which(name).is_ok()
}

impl Linker {
    /// The linkers to try, most preferred first.
    pub fn candidates(is_cross_compiling: bool) -> (r: Vec<Linker>)
        ensures
            r@ == candidates_of(is_cross_compiling),
    {
        if is_cross_compiling {
            let r = vec![Linker::Clang11, Linker::Clang10, Linker::Clang];
            assert(r@ =~= candidates_of(is_cross_compiling));
            r
        } else {
            let r = vec![Linker::Gcc];
            assert(r@ =~= candidates_of(is_cross_compiling));
            r
        }
    }

    /// Picks the first candidate whose flag in `installed` is set.
    pub fn select(candidates: &Vec<Linker>, installed: &Vec<bool>) -> (r: Option<Linker>)
        requires
            candidates@.len() == installed@.len(),
        ensures
            r == first_installed(candidates@, installed@),
    {
        let mut r: Option<Linker> = None;
        let mut i: usize = candidates.len();
        while i > 0
            invariant
                i <= candidates@.len(),
                candidates@.len() == installed@.len(),
                r == first_installed(candidates@.skip(i as int), installed@.skip(i as int)),
            decreases i,
        {
            i = i - 1;
            assert(candidates@.skip(i as int).drop_first() =~= candidates@.skip(i + 1));
            assert(installed@.skip(i as int).drop_first() =~= installed@.skip(i + 1));
            if installed[i] {
                r = Some(candidates[i]);
            }
        }
        assert(candidates@.skip(0) =~= candidates@);
        assert(installed@.skip(0) =~= installed@);
        r
    }

    /// Probes the search path for each candidate linker, in order of
    /// preference, and returns the first one found; `None` when none is.
    pub fn find_linker(is_cross_compiling: bool) -> (r: Option<Linker>)
        ensures
            exists|installed: Seq<bool>|
                installed.len() == candidates_of(is_cross_compiling).len() && r
                    == first_installed(candidates_of(is_cross_compiling), installed),
    {
        let candidates = Linker::candidates(is_cross_compiling);
        let mut installed: Vec<bool> = Vec::new();
        let mut i: usize = 0;
        while i < candidates.len()
            invariant
                i <= candidates@.len(),
                installed@.len() == i,
            decreases candidates@.len() - i,
        {
            let found = on_search_path(candidates[i].executable());
            installed.push(found);
            i = i + 1;
        }
        Linker::select(&candidates, &installed)
    }
}

} // verus!

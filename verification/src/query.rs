//! The multi-component query combinator: selects the declared component
//! terms of a query, keeping each term's position, refuses queries that
//! select no component or more components than the fixed arity it
//! supports, and names the variable each selected component is bound to.

use vstd::prelude::*;

use crate::errors::SchemaError;

verus! {

/// The greatest number of components one query may select.
pub const MAX_QUERY_TERMS: usize = 32;

/// The greatest number of terms, selected and skipped together, one
/// query may declare: each term's position is handed on as a signed
/// byte.
pub const MAX_TERM_POSITIONS: usize = 128;

/// One selected term of a query: the term's position among all declared
/// terms, and the component type name declared there.
#[derive(Debug)]
pub struct QueryBinding {
    /// Position of the term in the query's declaration, counted over
    /// skipped terms too.
    pub term_index: i8,
    /// The declared component type name.
    pub component_name: String,
}

/// The mathematical content of the declared terms: a name for each
/// declared term, nothing for each skipped one.
pub open spec fn spec_terms_view(terms: Seq<Option<String>>) -> Seq<Option<Seq<char>>> {
    Seq::new(
        terms.len(),
        |i: int|
            match terms[i] {
                Some(name) => Some(name@),
                None => None,
            },
    )
}

/// The selected terms, in declaration order, each with its position.
pub open spec fn spec_selected(terms: Seq<Option<Seq<char>>>) -> Seq<(int, Seq<char>)>
    decreases terms.len(),
{
    if terms.len() == 0 {
        Seq::empty()
    } else {
        let prefix = spec_selected(terms.drop_last());
        match terms.last() {
            Some(name) => prefix.push((terms.len() - 1, name)),
            None => prefix,
        }
    }
}

/// Select the declared terms of a query, keeping each term's position.
///
/// Fails with `UnsupportedArity`, carrying the selected count, exactly
/// when no term selects a component or more components are selected than
/// the combinator's fixed arity supports. Skipped placeholder terms
/// count toward positions but not toward the arity.
pub fn plan_query(terms: &Vec<Option<String>>) -> (r: Result<Vec<QueryBinding>, SchemaError>)
    requires
        terms@.len() <= MAX_TERM_POSITIONS,
    ensures
        match r {
            Ok(bindings) => {
                &&& 1 <= spec_selected(spec_terms_view(terms@)).len() <= MAX_QUERY_TERMS
                &&& Seq::new(
                    bindings@.len(),
                    |i: int| (bindings@[i].term_index as int, bindings@[i].component_name@),
                ) == spec_selected(spec_terms_view(terms@))
            },
            Err(SchemaError::UnsupportedArity(n)) => {
                &&& n == spec_selected(spec_terms_view(terms@)).len()
                &&& (n == 0 || n > MAX_QUERY_TERMS)
            },
            Err(_) => false,
        },
{
    let mut bindings: Vec<QueryBinding> = Vec::new();
    let mut i: usize = 0;
    while i < terms.len()
        invariant
            i <= terms@.len(),
            terms@.len() <= MAX_TERM_POSITIONS,
            Seq::new(
                bindings@.len(),
                |k: int| (bindings@[k].term_index as int, bindings@[k].component_name@),
            ) =~= spec_selected(spec_terms_view(terms@).subrange(0, i as int)),
        decreases terms@.len() - i,
    {
        proof {
            assert(spec_terms_view(terms@).subrange(0, i + 1).drop_last() =~= spec_terms_view(
                terms@,
            ).subrange(0, i as int));
        }
        match &terms[i] {
            Some(name) => {
                bindings.push(QueryBinding { term_index: i as i8, component_name: name.clone() });
            },
            None => {},
        }
        proof {
            assert(Seq::new(
                bindings@.len(),
                |k: int| (bindings@[k].term_index as int, bindings@[k].component_name@),
            ) =~= spec_selected(spec_terms_view(terms@).subrange(0, i + 1)));
        }
        i = i + 1;
    }
    proof {
        assert(spec_terms_view(terms@).subrange(0, terms@.len() as int) =~= spec_terms_view(
            terms@,
        ));
    }
    let selected = bindings.len();
    if selected == 0 || selected > MAX_QUERY_TERMS {
        return Err(SchemaError::UnsupportedArity(selected));
    }
    Ok(bindings)
}


/// Whether a character is an uppercase ASCII letter.
pub open spec fn spec_is_ascii_upper(c: char) -> bool {
    c == 'A' || c == 'B' || c == 'C' || c == 'D' || c == 'E' || c == 'F' || c == 'G' || c == 'H' || c == 'I' || c == 'J' || c == 'K' || c == 'L' || c == 'M' || c == 'N' || c == 'O' || c == 'P' || c == 'Q' || c == 'R' || c == 'S' || c == 'T' || c == 'U' || c == 'V' || c == 'W' || c == 'X' || c == 'Y' || c == 'Z'
}

/// The lowercase counterpart of an uppercase ASCII letter; any other
/// character is left as it is.
pub open spec fn spec_lower_ascii(c: char) -> char {
    if c == 'A' {
        'a'
    } else if c == 'B' {
        'b'
    } else if c == 'C' {
        'c'
    } else if c == 'D' {
        'd'
    } else if c == 'E' {
        'e'
    } else if c == 'F' {
        'f'
    } else if c == 'G' {
        'g'
    } else if c == 'H' {
        'h'
    } else if c == 'I' {
        'i'
    } else if c == 'J' {
        'j'
    } else if c == 'K' {
        'k'
    } else if c == 'L' {
        'l'
    } else if c == 'M' {
        'm'
    } else if c == 'N' {
        'n'
    } else if c == 'O' {
        'o'
    } else if c == 'P' {
        'p'
    } else if c == 'Q' {
        'q'
    } else if c == 'R' {
        'r'
    } else if c == 'S' {
        's'
    } else if c == 'T' {
        't'
    } else if c == 'U' {
        'u'
    } else if c == 'V' {
        'v'
    } else if c == 'W' {
        'w'
    } else if c == 'X' {
        'x'
    } else if c == 'Y' {
        'y'
    } else if c == 'Z' {
        'z'
    } else {
        c
    }
}

/// Snake casing of a name: every character lowercased, with an
/// underscore before each uppercase letter after the first character.
pub open spec fn spec_snake_case(s: Seq<char>) -> Seq<char>
    decreases s.len(),
{
    if s.len() == 0 {
        Seq::empty()
    } else {
        let prefix = spec_snake_case(s.drop_last());
        if spec_is_ascii_upper(s.last()) && s.len() > 1 {
            prefix.push('_').push(spec_lower_ascii(s.last()))
        } else if spec_is_ascii_upper(s.last()) {
            prefix.push(spec_lower_ascii(s.last()))
        } else {
            prefix.push(s.last())
        }
    }
}

/// Where the last path segment of a type name starts: just past the last
/// `::` separator, or at the front when the name has none.
pub open spec fn spec_segment_start(s: Seq<char>) -> int
    decreases s.len(),
{
    if s.len() < 2 {
        0
    } else if s[s.len() - 2] == ':' && s[s.len() - 1] == ':' {
        s.len() as int
    } else {
        spec_segment_start(s.drop_last())
    }
}

/// The segment start always lies inside the name.
pub proof fn lemma_segment_start_bounds(s: Seq<char>)
    ensures
        0 <= spec_segment_start(s) <= s.len(),
    decreases s.len(),
{
    if s.len() >= 2 && !(s[s.len() - 2] == ':' && s[s.len() - 1] == ':') {
        lemma_segment_start_bounds(s.drop_last());
    }
}

/// Whether a character is an uppercase ASCII letter.
fn is_ascii_upper(c: char) -> (r: bool)
    ensures
        r == spec_is_ascii_upper(c),
{
    match c {
        'A' | 'B' | 'C' | 'D' | 'E' | 'F' | 'G' | 'H' | 'I' | 'J' | 'K' | 'L' | 'M' | 'N' | 'O' | 'P' | 'Q' | 'R' | 'S' | 'T' | 'U' | 'V' | 'W' | 'X' | 'Y' | 'Z' => true,
        _ => false,
    }
}

/// The one-character string holding the lowercase counterpart of an
/// uppercase ASCII letter.
fn lower_ascii_str(c: char) -> (r: &'static str)
    requires
        spec_is_ascii_upper(c),
    ensures
        r@ == seq![spec_lower_ascii(c)],
{
    match c {
        'A' => {
            proof {
                reveal_strlit("a");
                assert("a"@ =~= seq![spec_lower_ascii('A')]);
            }
            "a"
        },
        'B' => {
            proof {
                reveal_strlit("b");
                assert("b"@ =~= seq![spec_lower_ascii('B')]);
            }
            "b"
        },
        'C' => {
            proof {
                reveal_strlit("c");
                assert("c"@ =~= seq![spec_lower_ascii('C')]);
            }
            "c"
        },
        'D' => {
            proof {
                reveal_strlit("d");
                assert("d"@ =~= seq![spec_lower_ascii('D')]);
            }
            "d"
        },
        'E' => {
            proof {
                reveal_strlit("e");
                assert("e"@ =~= seq![spec_lower_ascii('E')]);
            }
            "e"
        },
        'F' => {
            proof {
                reveal_strlit("f");
                assert("f"@ =~= seq![spec_lower_ascii('F')]);
            }
            "f"
        },
        'G' => {
            proof {
                reveal_strlit("g");
                assert("g"@ =~= seq![spec_lower_ascii('G')]);
            }
            "g"
        },
        'H' => {
            proof {
                reveal_strlit("h");
                assert("h"@ =~= seq![spec_lower_ascii('H')]);
            }
            "h"
        },
        'I' => {
            proof {
                reveal_strlit("i");
                assert("i"@ =~= seq![spec_lower_ascii('I')]);
            }
            "i"
        },
        'J' => {
            proof {
                reveal_strlit("j");
                assert("j"@ =~= seq![spec_lower_ascii('J')]);
            }
            "j"
        },
        'K' => {
            proof {
                reveal_strlit("k");
                assert("k"@ =~= seq![spec_lower_ascii('K')]);
            }
            "k"
        },
        'L' => {
            proof {
                reveal_strlit("l");
                assert("l"@ =~= seq![spec_lower_ascii('L')]);
            }
            "l"
        },
        'M' => {
            proof {
                reveal_strlit("m");
                assert("m"@ =~= seq![spec_lower_ascii('M')]);
            }
            "m"
        },
        'N' => {
            proof {
                reveal_strlit("n");
                assert("n"@ =~= seq![spec_lower_ascii('N')]);
            }
            "n"
        },
        'O' => {
            proof {
                reveal_strlit("o");
                assert("o"@ =~= seq![spec_lower_ascii('O')]);
            }
            "o"
        },
        'P' => {
            proof {
                reveal_strlit("p");
                assert("p"@ =~= seq![spec_lower_ascii('P')]);
            }
            "p"
        },
        'Q' => {
            proof {
                reveal_strlit("q");
                assert("q"@ =~= seq![spec_lower_ascii('Q')]);
            }
            "q"
        },
        'R' => {
            proof {
                reveal_strlit("r");
                assert("r"@ =~= seq![spec_lower_ascii('R')]);
            }
            "r"
        },
        'S' => {
            proof {
                reveal_strlit("s");
                assert("s"@ =~= seq![spec_lower_ascii('S')]);
            }
            "s"
        },
        'T' => {
            proof {
                reveal_strlit("t");
                assert("t"@ =~= seq![spec_lower_ascii('T')]);
            }
            "t"
        },
        'U' => {
            proof {
                reveal_strlit("u");
                assert("u"@ =~= seq![spec_lower_ascii('U')]);
            }
            "u"
        },
        'V' => {
            proof {
                reveal_strlit("v");
                assert("v"@ =~= seq![spec_lower_ascii('V')]);
            }
            "v"
        },
        'W' => {
            proof {
                reveal_strlit("w");
                assert("w"@ =~= seq![spec_lower_ascii('W')]);
            }
            "w"
        },
        'X' => {
            proof {
                reveal_strlit("x");
                assert("x"@ =~= seq![spec_lower_ascii('X')]);
            }
            "x"
        },
        'Y' => {
            proof {
                reveal_strlit("y");
                assert("y"@ =~= seq![spec_lower_ascii('Y')]);
            }
            "y"
        },
        'Z' => {
            proof {
                reveal_strlit("z");
                assert("z"@ =~= seq![spec_lower_ascii('Z')]);
            }
            "z"
        },
        _ => {
            proof {
                reveal_strlit("a");
                assert("a"@ =~= seq![spec_lower_ascii(c)]);
            }
            "a"
        },
    }
}

/// The variable name the combinator binds a component term to: the last
/// path segment of the declared type name, snake cased. Uppercase ASCII
/// letters are lowercased, with an underscore before each one after the
/// segment's first character; every other character passes through
/// unchanged.
pub fn make_variable_name(name: &str) -> (r: String)
    ensures
        r@ == spec_snake_case(
            name@.subrange(spec_segment_start(name@), name@.len() as int),
        ),
{
    let n = name.unicode_len();
    let mut i: usize = 0;
    let mut start: usize = 0;
    proof {
        assert(name@.subrange(0, 0) =~= Seq::<char>::empty());
    }
    while i < n
        invariant
            i <= n,
            n == name@.len(),
            start <= i,
            start as int == spec_segment_start(name@.subrange(0, i as int)),
        decreases n - i,
    {
        i = i + 1;
        if i >= 2 && name.get_char(i - 2) == ':' && name.get_char(i - 1) == ':' {
            start = i;
        }
        proof {
            assert(name@.subrange(0, i as int).drop_last() =~= name@.subrange(0, i - 1));
        }
    }
    proof {
        assert(name@.subrange(0, n as int) =~= name@);
        lemma_segment_start_bounds(name@);
        assert(name@.subrange(start as int, start as int) =~= Seq::<char>::empty());
    }
    let mut r = String::new();
    let mut j: usize = start;
    while j < n
        invariant
            start <= j <= n,
            n == name@.len(),
            start as int == spec_segment_start(name@),
            r@ == spec_snake_case(name@.subrange(start as int, j as int)),
        decreases n - j,
    {
        proof {
            assert(name@.subrange(start as int, j + 1).drop_last() =~= name@.subrange(
                start as int,
                j as int,
            ));
            assert(name@.subrange(start as int, j + 1).last() == name@[j as int]);
        }
        let c = name.get_char(j);
        if is_ascii_upper(c) {
            if j > start {
                r.append("_");
                proof {
                    reveal_strlit("_");
                    assert("_"@ =~= seq!['_']);
                }
            }
            r.append(lower_ascii_str(c));
            proof {
                assert(r@ =~= spec_snake_case(name@.subrange(start as int, j + 1)));
            }
        } else {
            r.append(name.substring_char(j, j + 1));
            proof {
                assert(r@ =~= spec_snake_case(name@.subrange(start as int, j + 1)));
            }
        }
        j = j + 1;
    }
    proof {
        assert(name@.subrange(start as int, n as int) == name@.subrange(
            spec_segment_start(name@),
            name@.len() as int,
        ));
    }
    r
}

} // verus!

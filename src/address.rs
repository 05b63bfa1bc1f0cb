//! Syntax of dotted-quad IPv4 literals.
use vstd::prelude::*;

verus! {

broadcast use vstd::string::axiom_spec_iter;

pub open spec fn is_digit(c: char) -> bool {
    '0' <= c && c <= '9'
}

/// Decimal value of a run of digits.
pub open spec fn digits_value(p: Seq<char>) -> int
    decreases p.len(),
{
    if p.len() == 0 {
        0
    } else {
        digits_value(p.drop_last()) * 10 + (p.last() as int - '0' as int)
    }
}

/// One decimal octet: one to three digits, no leading zero, at most 255.
pub open spec fn is_octet(p: Seq<char>) -> bool {
    &&& 1 <= p.len() <= 3
    &&& forall|i: int| 0 <= i < p.len() ==> is_digit(#[trigger] p[i])
    &&& (p.len() > 1 ==> p[0] != '0')
    &&& digits_value(p) <= 255
}

/// The pieces of `s` between dots, in order; a string without a dot is one piece.
pub open spec fn dot_fields(s: Seq<char>) -> Seq<Seq<char>>
    decreases s.len(),
{
    if s.len() == 0 {
        seq![Seq::empty()]
    } else if s.last() == '.' {
        dot_fields(s.drop_last()).push(Seq::empty())
    } else {
        let f = dot_fields(s.drop_last());
        f.update(f.len() - 1, f.last().push(s.last()))
    }
}

/// `s` is an IPv4 literal: four octets separated by dots, nothing else.
pub open spec fn valid_ipv4(s: Seq<char>) -> bool {
    &&& dot_fields(s).len() == 4
    &&& forall|i: int| 0 <= i < 4 ==> is_octet(#[trigger] dot_fields(s)[i])
}

proof fn lemma_dot_fields_nonempty(s: Seq<char>)
    ensures
        dot_fields(s).len() >= 1,
    decreases s.len(),
{
    if s.len() > 0 {
        lemma_dot_fields_nonempty(s.drop_last());
    }
}

proof fn lemma_digits_value_bound(p: Seq<char>)
    requires
        forall|i: int| 0 <= i < p.len() ==> is_digit(#[trigger] p[i]),
    ensures
        0 <= digits_value(p),
        p.len() <= 1 ==> digits_value(p) <= 9,
        p.len() <= 2 ==> digits_value(p) <= 99,
        p.len() <= 3 ==> digits_value(p) <= 999,
    decreases p.len(),
{
    if p.len() > 0 {
        let q = p.drop_last();
        assert forall|i: int| 0 <= i < q.len() implies is_digit(#[trigger] q[i]) by {
            assert(q[i] == p[i]);
        }
        lemma_digits_value_bound(q);
        assert(is_digit(p[p.len() - 1]));
    }
}

/// Whether `ip` is an IPv4 address literal such as `10.0.0.5`.
pub fn is_valid_ipv4(ip: &str) -> (r: bool)
    ensures
        r == valid_ipv4(ip@),
{
    let ghost s = ip@;
    // fields completed so far, and the field being read
    let mut done: usize = 0;
    let mut done_ok: bool = true;
    let mut cur_len: usize = 0;
    let mut cur_digits: bool = true;
    let mut cur_val: u32 = 0;
    let mut cur_lead_zero: bool = false;
    for c in it: ip.chars()
        invariant
            it.seq() == s,
            ({
                let f = dot_fields(s.take(it.index() as int));
                &&& done as int == if f.len() - 1 <= 4 { f.len() - 1 } else { 4 }
                &&& (f.len() - 1 <= 4 ==> done_ok == (forall|j: int|
                    0 <= j < done ==> is_octet(#[trigger] f[j])))
                &&& cur_len as int == if f.last().len() <= 4 { f.last().len() as int } else { 4 }
                &&& cur_digits == (forall|j: int|
                    0 <= j < f.last().len() ==> is_digit(#[trigger] f.last()[j]))
                &&& (cur_digits && cur_len <= 3 ==> cur_val == digits_value(f.last()))
                &&& (cur_len > 0 ==> cur_lead_zero == (f.last()[0] == '0'))
            }),
            cur_val <= 999,
    {
        let ghost i = it.index() as int;
        let ghost prev = s.take(i);
        let ghost f = dot_fields(prev);
        proof {
            assert(s.take(i + 1).drop_last() =~= prev);
            assert(s.take(i + 1).last() == c);
            lemma_dot_fields_nonempty(prev);
        }
        if c == '.' {
            let ok_field = cur_digits && 1 <= cur_len && cur_len <= 3 && (cur_len == 1
                || !cur_lead_zero) && cur_val <= 255;
            proof {
                let g = dot_fields(s.take(i + 1));
                assert(g == f.push(Seq::empty()));
                assert(ok_field == is_octet(f.last()));
                if f.len() - 1 <= 3 {
                assert(done_ok && ok_field <==> (forall|j: int|
                    0 <= j < done + 1 ==> is_octet(#[trigger] g[j]))) by {
                    if done_ok && ok_field {
                        assert forall|j: int| 0 <= j < done + 1 implies is_octet(#[trigger] g[j]) by {
                            if j < done {
                                assert(g[j] == f[j]);
                            } else {
                                assert(g[j] == f.last());
                            }
                        }
                    }
                    if forall|j: int| 0 <= j < done + 1 ==> is_octet(#[trigger] g[j]) {
                        assert forall|j: int| 0 <= j < done implies is_octet(#[trigger] f[j]) by {
                            assert(g[j] == f[j]);
                        }
                        assert(g[done as int] == f.last());
                    }
                }
                }
            }
            done_ok = done_ok && ok_field;
            if done < 4 {
                done = done + 1;
            }
            cur_len = 0;
            cur_digits = true;
            cur_val = 0;
            cur_lead_zero = false;
        } else {
            let ghost last = f.last();
            let ghost nl = last.push(c);
            proof {
                let g = dot_fields(s.take(i + 1));
                assert(g == f.update(f.len() - 1, nl));
                assert forall|j: int| 0 <= j < done implies g[j] == f[j] by {}
                assert(g.last() == nl);
                assert(nl.drop_last() =~= last);
                assert forall|j: int| 0 <= j < last.len() implies nl[j] == last[j] by {}
            }
            let d = '0' <= c && c <= '9';
            if cur_len == 0 {
                cur_lead_zero = c == '0';
            }
            if cur_digits && d && cur_len < 3 {
                proof {
                    lemma_digits_value_bound(last);
                }
                cur_val = cur_val * 10 + (c as u32 - '0' as u32);
            }
            proof {
                if cur_digits && d {
                    assert forall|j: int| 0 <= j < nl.len() implies is_digit(#[trigger] nl[j]) by {
                        if j < last.len() {
                            assert(nl[j] == last[j]);
                        }
                    }
                    lemma_digits_value_bound(nl);
                } else if !d {
                    assert(!is_digit(nl[last.len() as int]));
                } else {
                    let j0 = choose|j: int| 0 <= j < last.len() && !is_digit(#[trigger] last[j]);
                    assert(nl[j0] == last[j0]);
                }
            }
            cur_digits = cur_digits && d;
            if cur_len < 4 {
                cur_len = cur_len + 1;
            }
        }
    }
    proof {
        assert(s.take(s.len() as int) =~= s);
    }
    let last_ok = cur_digits && 1 <= cur_len && cur_len <= 3 && (cur_len == 1 || !cur_lead_zero)
        && cur_val <= 255;
    proof {
        let f = dot_fields(s);
        if done == 3 {
            assert(last_ok == is_octet(f[3]));
            if valid_ipv4(s) {
                assert(is_octet(f[0]) && is_octet(f[1]) && is_octet(f[2]) && is_octet(f[3]));
            }
        }
    }
    done == 3 && done_ok && last_ok
}

} // verus!

//! The text that a session record is written as inside the cookie.
//!
//! A record with nobody signed in is `N`. A signed-in record is `A` followed
//! by the user's id, name and email, each written as its characters with a
//! `.` after every one and closed by `!!`. Every character of a field is
//! followed by a `.`, so the closing `!!` cannot be mistaken for field text.
use vstd::prelude::*;
use crate::model::{AuthView, UserView, UserInfo, SessionRecord};

verus! {

/// The characters of a field, each followed by a dot.
pub open spec fn field_pairs(f: Seq<char>) -> Seq<char> {
    Seq::new(2 * f.len(), |j: int| if j % 2 == 0 { f[j / 2] } else { '.' })
}

/// A field as it stands in the payload: its pairs, then the closing mark.
pub open spec fn field_text(f: Seq<char>) -> Seq<char> {
    field_pairs(f) + seq!['!', '!']
}

/// Whether `t` holds the field `f` written from position `start`.
pub open spec fn field_at(t: Seq<char>, start: int, f: Seq<char>) -> bool {
    &&& 0 <= start
    &&& start + field_text(f).len() <= t.len()
    &&& t.subrange(start, start + field_text(f).len()) == field_text(f)
}

/// The payload text of a record.
pub open spec fn payload_of(r: AuthView) -> Seq<char> {
    match r.user {
        Some(u) => if r.authenticated {
            seq!['A'] + field_text(u.id) + field_text(u.name) + field_text(u.email)
        } else {
            seq!['N']
        },
        None => seq!['N'],
    }
}

/// A record that claims a sign-in without a user, or carries a user while
/// signed out, is written as the empty record: the payload cannot state it.
pub proof fn lemma_ill_formed_is_written_empty(v: AuthView)
    requires
        !v.wf(),
    ensures
        payload_of(v) == payload_of(crate::model::anonymous()),
{
}

proof fn lemma_field_text_index(g: Seq<char>, k: int)
    requires
        0 <= k <= g.len(),
    ensures
        field_text(g).len() == 2 * g.len() + 2,
        k < g.len() ==> field_text(g)[2 * k] == g[k] && field_text(g)[2 * k + 1] == '.',
        k == g.len() ==> field_text(g)[2 * k] == '!' && field_text(g)[2 * k + 1] == '!',
{
    assert((2 * k) % 2 == 0 && (2 * k) / 2 == k && (2 * k + 1) % 2 == 1);
}

proof fn lemma_field_pairs_push(f: Seq<char>, c: char)
    ensures
        field_pairs(f.push(c)) == field_pairs(f) + seq![c, '.'],
{
    let l = field_pairs(f.push(c));
    let r = field_pairs(f) + seq![c, '.'];
    assert forall|j: int| 0 <= j < l.len() implies l[j] == r[j] by {
        if j < 2 * f.len() {
            assert(j / 2 < f.len());
        } else if j == 2 * f.len() {
            assert(j % 2 == 0 && j / 2 == f.len());
        } else {
            assert(j % 2 == 1);
        }
    }
    assert(l =~= r);
}

/// Reads one field written from `start`: its characters and the position just
/// past its closing mark, or `None` where no field stands there.
fn parse_field(t: &Vec<char>, start: usize) -> (r: Option<(Vec<char>, usize)>)
    requires
        start <= t@.len(),
    ensures
        r matches Some((f, e)) ==> field_at(t@, start as int, f@) && e == start + field_text(f@).len(),
        forall|g: Seq<char>| #[trigger] field_at(t@, start as int, g) ==> (r matches Some((f, e)) && f@ == g),
{
    let mut f: Vec<char> = Vec::new();
    let mut i: usize = start;
    loop
        invariant
            start <= i <= t@.len(),
            i == start + 2 * f@.len(),
            t@.subrange(start as int, i as int) == field_pairs(f@),
            forall|g: Seq<char>| #[trigger] field_at(t@, start as int, g) ==> f@.len() <= g.len()
                && f@ == g.subrange(0, f@.len() as int),
        decreases t@.len() - i,
    {
        let ghost k = f@.len() as int;
        assert forall|g: Seq<char>| #[trigger] field_at(t@, start as int, g) implies (i + 1 < t@.len()
            && (k < g.len() ==> t@[i as int] == g[k] && t@[i + 1] == '.')
            && (k == g.len() ==> t@[i as int] == '!' && t@[i + 1] == '!')) by {
            lemma_field_text_index(g, k);
            let s = t@.subrange(start as int, start + field_text(g).len());
            assert(s[2 * k] == t@[i as int]);
            assert(s[2 * k + 1] == t@[i + 1]);
        }
        if t.len() - i < 2 {
            return None;
        }
        let c = t[i];
        if t[i + 1] == '.' {
            proof {
                lemma_field_pairs_push(f@, c);
                assert(t@.subrange(start as int, i + 2) =~= t@.subrange(start as int, i as int) + seq![c, '.']);
            }
            let ghost old_f = f@;
            f.push(c);
            i = i + 2;
            assert forall|g: Seq<char>| #[trigger] field_at(t@, start as int, g) implies f@.len() <= g.len()
                && f@ == g.subrange(0, f@.len() as int) by {
                assert(old_f == g.subrange(0, k));
                assert(f@ =~= g.subrange(0, k + 1));
            }
        } else if c == '!' && t[i + 1] == '!' {
            proof {
                assert(t@.subrange(start as int, i + 2) =~= t@.subrange(start as int, i as int) + seq!['!', '!']);
                assert forall|g: Seq<char>| #[trigger] field_at(t@, start as int, g) implies f@ == g by {
                    assert(f@ =~= g.subrange(0, k));
                    assert(g.subrange(0, k) =~= g);
                }
            }
            return Some((f, i + 2));
        } else {
            return None;
        }
    }
}

/// Appends a field as it stands in the payload.
fn push_field(out: &mut Vec<char>, f: &Vec<char>)
    ensures
        final(out)@ == old(out)@ + field_text(f@),
{
    let ghost start = out@;
    let mut i: usize = 0;
    while i < f.len()
        invariant
            i <= f@.len(),
            out@ == start + field_pairs(f@.subrange(0, i as int)),
        decreases f@.len() - i,
    {
        proof {
            lemma_field_pairs_push(f@.subrange(0, i as int), f@[i as int]);
            assert(f@.subrange(0, i as int).push(f@[i as int]) =~= f@.subrange(0, i + 1));
        }
        out.push(f[i]);
        out.push('.');
        i = i + 1;
    }
    assert(f@.subrange(0, i as int) =~= f@);
    out.push('!');
    out.push('!');
    assert(out@ =~= start + field_text(f@));
}

/// Relies on `str::chars`, collected: the characters of the string in order.
#[verifier::external_body]
pub(crate) fn chars_of(s: &str) -> (r: Vec<char>)
    ensures
        r@ == s@,
{
    s.chars().collect()
}

/// Relies on collecting characters into a `String`: the string of those characters.
#[verifier::external_body]
pub(crate) fn string_of(v: &Vec<char>) -> (r: String)
    ensures
        r@ == v@,
{
    v.iter().collect()
}

/// The payload text of a record.
pub fn encode_payload(rec: &SessionRecord) -> (r: Vec<char>)
    ensures
        r@ == payload_of(rec@),
{
    let mut out: Vec<char> = Vec::new();
    match &rec.user {
        Some(u) if rec.authenticated => {
            out.push('A');
            push_field(&mut out, &chars_of(u.id.as_str()));
            push_field(&mut out, &chars_of(u.name.as_str()));
            push_field(&mut out, &chars_of(u.email.as_str()));
            assert(out@ =~= payload_of(rec@));
        },
        _ => {
            out.push('N');
            assert(out@ =~= payload_of(rec@));
        },
    }
    out
}

/// Reads a payload back into a record; `None` where the text is not the
/// payload of any well-formed record.
pub fn decode_payload(t: &Vec<char>) -> (r: Option<SessionRecord>)
    ensures
        r matches Some(rec) ==> rec@.wf() && payload_of(rec@) == t@,
        forall|v: AuthView| v.wf() && #[trigger] payload_of(v) == t@ ==> (r matches Some(rec) && rec@ == v),
{
    if t.len() == 1 && t[0] == 'N' {
        let rec = SessionRecord::empty();
        assert(payload_of(rec@) =~= t@);
        proof {
            assert forall|v: AuthView| v.wf() && #[trigger] payload_of(v) == t@ implies rec@ == v by {
                if v.authenticated {
                    assert(payload_of(v)[0] == 'A');
                }
            }
        }
        return Some(rec);
    }
    if t.len() == 0 || t[0] != 'A' {
        proof {
            assert forall|v: AuthView| v.wf() && #[trigger] payload_of(v) == t@ implies false by {
                if v.authenticated {
                    assert(payload_of(v)[0] == 'A');
                } else {
                    assert(payload_of(v) =~= seq!['N']);
                }
            }
        }
        return None;
    }
    proof {
        assert forall|v: AuthView| v.wf() && #[trigger] payload_of(v) == t@ implies v.authenticated && ({
            let u = v.user->0;
            let a = field_text(u.id).len() as int;
            let b = field_text(u.name).len() as int;
            &&& field_at(t@, 1, u.id)
            &&& field_at(t@, 1 + a, u.name)
            &&& field_at(t@, 1 + a + b, u.email)
            &&& t@.len() == 1 + a + b + field_text(u.email).len()
        }) by {
            if !v.authenticated {
                assert(payload_of(v) =~= seq!['N']);
            } else {
                let u = v.user->0;
                let a = field_text(u.id).len() as int;
                let b = field_text(u.name).len() as int;
                let p = payload_of(v);
                assert(p.subrange(1, 1 + a) =~= field_text(u.id));
                assert(p.subrange(1 + a, 1 + a + b) =~= field_text(u.name));
                assert(p.subrange(1 + a + b, p.len() as int) =~= field_text(u.email));
            }
        }
    }
    let (id, e1) = match parse_field(t, 1) {
        Some(x) => x,
        None => { return None; },
    };
    let (name, e2) = match parse_field(t, e1) {
        Some(x) => x,
        None => { return None; },
    };
    let (email, e3) = match parse_field(t, e2) {
        Some(x) => x,
        None => { return None; },
    };
    if e3 != t.len() {
        return None;
    }
    let user = UserInfo::new(string_of(&id), string_of(&name), string_of(&email));
    let rec = SessionRecord::signed_in(user);
    proof {
        let s1 = t@.subrange(1, e1 as int);
        let s2 = t@.subrange(e1 as int, e2 as int);
        let s3 = t@.subrange(e2 as int, e3 as int);
        assert(t@ =~= seq!['A'] + s1 + s2 + s3);
        assert(payload_of(rec@) =~= t@);
    }
    Some(rec)
}

} // verus!

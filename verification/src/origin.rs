use vstd::prelude::*;
use vstd::string::*;

verus! {

/// The caller origin: the canonical identity of a caller, tagged by the
/// network the caller was observed on.
///
/// The canonical textual encoding is `Discord(<user id>)` or
/// `Telegram(<user id>)`.  An origin is *valid* when its user id is a
/// non-empty run of word characters (ASCII letters, digits, underscore);
/// for valid origins decoding is the exact inverse of encoding.
#[derive(Debug, PartialEq)]
pub enum Origin {
    Discord(String),
    Telegram(String),
}

/// The mathematical model of an origin: the network tag together with the
/// user id as a character sequence.
pub enum OriginView {
    Discord(Seq<char>),
    Telegram(Seq<char>),
}

impl View for Origin {
    type V = OriginView;

    open spec fn view(&self) -> OriginView {
        match self {
            Origin::Discord(id) => OriginView::Discord(id@),
            Origin::Telegram(id) => OriginView::Telegram(id@),
        }
    }
}

/// The user id carried inside an origin.
pub open spec fn spec_user_id(o: OriginView) -> Seq<char> {
    match o {
        OriginView::Discord(id) => id,
        OriginView::Telegram(id) => id,
    }
}

/// The network tag of an origin, as a character sequence.
pub open spec fn spec_network(o: OriginView) -> Seq<char> {
    match o {
        OriginView::Discord(_) => "DISCORD"@,
        OriginView::Telegram(_) => "TELEGRAM"@,
    }
}

/// A word character: ASCII letter, digit or underscore.
pub open spec fn is_word_char(c: char) -> bool {
    ('a' <= c && c <= 'z') || ('A' <= c && c <= 'Z') || ('0' <= c && c <= '9') || c == '_'
}

/// A user id acceptable in the canonical encoding: non-empty, word
/// characters only.
pub open spec fn valid_user_id(s: Seq<char>) -> bool {
    s.len() > 0 && (forall|i: int| 0 <= i < s.len() ==> is_word_char(#[trigger] s[i]))
}

/// An origin whose user id is acceptable in the canonical encoding.
pub open spec fn spec_valid_origin(o: OriginView) -> bool {
    valid_user_id(spec_user_id(o))
}

/// The canonical textual encoding of an origin.
pub open spec fn spec_encode(o: OriginView) -> Seq<char> {
    match o {
        OriginView::Discord(id) => "Discord("@ + id + ")"@,
        OriginView::Telegram(id) => "Telegram("@ + id + ")"@,
    }
}

/// The origin a text denotes, if any: the unique valid origin whose
/// canonical encoding is the text.
pub open spec fn spec_decode(s: Seq<char>) -> Option<OriginView> {
    if exists|o: OriginView| spec_valid_origin(o) && spec_encode(o) == s {
        Some(choose|o: OriginView| spec_valid_origin(o) && spec_encode(o) == s)
    } else {
        None
    }
}

/// Law: the canonical encoding is collision-free, so a text is the
/// encoding of at most one valid origin.
pub proof fn lemma_encode_injective(o1: OriginView, o2: OriginView)
    requires
        spec_valid_origin(o1),
        spec_valid_origin(o2),
        spec_encode(o1) == spec_encode(o2),
    ensures
        o1 == o2,
{
    reveal_strlit("Discord(");
    reveal_strlit("Telegram(");
    reveal_strlit(")");
    match (o1, o2) {
        (OriginView::Discord(a), OriginView::Discord(b)) => {
            assert(spec_encode(o1).len() == 8 + a.len() + 1);
            assert(spec_encode(o2).len() == 8 + b.len() + 1);
            assert(a =~= b) by {
                assert forall|i: int| 0 <= i < a.len() implies a[i] == b[i] by {
                    assert(spec_encode(o1)[8 + i] == a[i]);
                    assert(spec_encode(o2)[8 + i] == b[i]);
                }
            }
        },
        (OriginView::Telegram(a), OriginView::Telegram(b)) => {
            assert(spec_encode(o1).len() == 9 + a.len() + 1);
            assert(spec_encode(o2).len() == 9 + b.len() + 1);
            assert(a =~= b) by {
                assert forall|i: int| 0 <= i < a.len() implies a[i] == b[i] by {
                    assert(spec_encode(o1)[9 + i] == a[i]);
                    assert(spec_encode(o2)[9 + i] == b[i]);
                }
            }
        },
        (OriginView::Discord(a), OriginView::Telegram(b)) => {
            assert(spec_encode(o1)[0] == 'D');
            assert(spec_encode(o2)[0] == 'T');
        },
        (OriginView::Telegram(a), OriginView::Discord(b)) => {
            assert(spec_encode(o1)[0] == 'T');
            assert(spec_encode(o2)[0] == 'D');
        },
    }
}

/// Law: round trip.  Decoding the canonical encoding of a valid origin
/// yields that origin back.
pub proof fn lemma_origin_round_trip(o: OriginView)
    requires
        spec_valid_origin(o),
    ensures
        spec_decode(spec_encode(o)) == Some(o),
{
    assert(spec_valid_origin(o) && spec_encode(o) == spec_encode(o));
    let picked = choose|p: OriginView| spec_valid_origin(p) && spec_encode(p) == spec_encode(o);
    lemma_encode_injective(picked, o);
}

impl Clone for Origin {
    fn clone(&self) -> (r: Self)
        ensures
            r == *self,
    {
        match self {
            Origin::Discord(id) => Origin::Discord(id.clone()),
            Origin::Telegram(id) => Origin::Telegram(id.clone()),
        }
    }
}

impl Origin {
    /// The name of the network the origin belongs to.
    pub fn network(&self) -> (r: String)
        ensures
            r@ == spec_network(self@),
    {
        match self {
            Origin::Discord(_) => String::from_str("DISCORD"),
            Origin::Telegram(_) => String::from_str("TELEGRAM"),
        }
    }

    /// The user id the origin carries.
    pub fn user_id(&self) -> (r: String)
        ensures
            r@ == spec_user_id(self@),
    {
        match self {
            Origin::Discord(id) => id.clone(),
            Origin::Telegram(id) => id.clone(),
        }
    }

    /// The user id the origin carries (alias used where the inner value is
    /// wanted verbatim, e.g. when naming a channel).
    pub fn inner(&self) -> (r: String)
        ensures
            r@ == spec_user_id(self@),
    {
        self.user_id()
    }

    /// The canonical textual encoding, `Network(<user id>)`.
    pub fn encode(&self) -> (r: String)
        ensures
            r@ == spec_encode(self@),
    {
        match self {
            Origin::Discord(id) => {
                let mut s = String::from_str("Discord(");
                s.append(id.as_str());
                s.append(")");
                s
            },
            Origin::Telegram(id) => {
                let mut s = String::from_str("Telegram(");
                s.append(id.as_str());
                s.append(")");
                s
            },
        }
    }

    /// Decode a canonical encoding back into an origin.  Fails on any text
    /// that is not the encoding of a valid origin.
    pub fn decode(s: &str) -> (r: Result<Origin, &'static str>)
        ensures
            r matches Ok(o) ==> spec_valid_origin(o@) && spec_encode(o@) == s@,
            r matches Ok(o) ==> spec_decode(s@) == Some(o@),
            r is Err <==> spec_decode(s@) is None,
    {
        let n = s.unicode_len();
        proof {
            reveal_strlit("Discord(");
            reveal_strlit("Telegram(");
            reveal_strlit(")");
        }
        let d_shape = n >= 10 && s.get_char(0) == 'D' && s.get_char(1) == 'i'
            && s.get_char(2) == 's' && s.get_char(3) == 'c' && s.get_char(4) == 'o'
            && s.get_char(5) == 'r' && s.get_char(6) == 'd' && s.get_char(7) == '('
            && s.get_char(n - 1) == ')';
        if d_shape && all_word_chars(s, 8, n - 1) {
            let id = String::from_str(s.substring_char(8, n - 1));
            let o = Origin::Discord(id);
            proof {
                assert(spec_encode(o@) =~= s@);
                let picked = choose|p: OriginView| spec_valid_origin(p) && spec_encode(p) == s@;
                lemma_encode_injective(picked, o@);
            }
            return Ok(o);
        }
        let t_shape = n >= 11 && s.get_char(0) == 'T' && s.get_char(1) == 'e'
            && s.get_char(2) == 'l' && s.get_char(3) == 'e' && s.get_char(4) == 'g'
            && s.get_char(5) == 'r' && s.get_char(6) == 'a' && s.get_char(7) == 'm'
            && s.get_char(8) == '(' && s.get_char(n - 1) == ')';
        if t_shape && all_word_chars(s, 9, n - 1) {
            let id = String::from_str(s.substring_char(9, n - 1));
            let o = Origin::Telegram(id);
            proof {
                assert(spec_encode(o@) =~= s@);
                let picked = choose|p: OriginView| spec_valid_origin(p) && spec_encode(p) == s@;
                lemma_encode_injective(picked, o@);
            }
            return Ok(o);
        }
        proof {
            assert forall|o: OriginView| spec_valid_origin(o) implies spec_encode(o) != s@ by {
                match o {
                    OriginView::Discord(id) => {
                        if spec_encode(o) == s@ {
                            assert(s@.len() == 9 + id.len());
                            assert(s@[0] == 'D' && s@[1] == 'i' && s@[2] == 's' && s@[3] == 'c'
                                && s@[4] == 'o' && s@[5] == 'r' && s@[6] == 'd' && s@[7] == '(');
                            assert(s@[n - 1] == ')');
                            assert(forall|i: int| 8 <= i < n - 1 ==> is_word_char(#[trigger] s@[i]))
                                by {
                                assert(forall|i: int| 8 <= i < n - 1 ==> s@[i] == id[i - 8]);
                            }
                        }
                    },
                    OriginView::Telegram(id) => {
                        if spec_encode(o) == s@ {
                            assert(s@.len() == 10 + id.len());
                            assert(s@[0] == 'T' && s@[1] == 'e' && s@[2] == 'l' && s@[3] == 'e'
                                && s@[4] == 'g' && s@[5] == 'r' && s@[6] == 'a' && s@[7] == 'm'
                                && s@[8] == '(');
                            assert(s@[n - 1] == ')');
                            assert(forall|i: int| 9 <= i < n - 1 ==> is_word_char(#[trigger] s@[i]))
                                by {
                                assert(forall|i: int| 9 <= i < n - 1 ==> s@[i] == id[i - 9]);
                            }
                        }
                    },
                }
            }
        }
        Err("Invalid origin")
    }
}

impl crate::traits::Origin for Origin {
    fn network(&self) -> String {
        self.network()
    }

    fn user_id(&self) -> String {
        self.user_id()
    }
}

/// True when a character is a word character.
pub fn word_char(c: char) -> (r: bool)
    ensures
        r == is_word_char(c),
{
    ('a' <= c && c <= 'z') || ('A' <= c && c <= 'Z') || ('0' <= c && c <= '9') || c == '_'
}

/// True when every character of `s` in `[from, to)` is a word character.
fn all_word_chars(s: &str, from: usize, to: usize) -> (r: bool)
    requires
        from <= to <= s@.len(),
    ensures
        r == (forall|i: int| from <= i < to ==> is_word_char(#[trigger] s@[i])),
{
    let mut i = from;
    while i < to
        invariant
            from <= i <= to <= s@.len(),
            forall|j: int| from <= j < i ==> is_word_char(#[trigger] s@[j]),
        decreases to - i,
    {
        if !word_char(s.get_char(i)) {
            return false;
        }
        i += 1;
    }
    true
}

} // verus!

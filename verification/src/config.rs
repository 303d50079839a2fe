//! The configuration value the backends consume, and the generic
//! key/value properties format `key1=val1;key2=val2`.
//!
//! Reading and merging the configuration file and the command line belong
//! to the configuration collaborator outside this crate; here stand the
//! parsed value and the properties parser itself.

use vstd::prelude::*;
use crate::api::API;
use crate::error::Error;
use crate::lyrics::Lyrics;
use crate::player::Player;
use crate::text::{find_char, find_from, lemma_find_from, lemma_find_from_subrange};

verus! {

/// One `key=val` entry: the key is everything before the first `=`, the
/// value everything between the first and the second `=`, or to the end.
/// An entry without `=` does not parse.
pub open spec fn pair_of(p: Seq<char>) -> Option<(Seq<char>, Seq<char>)> {
    match find_from(p, 0, '=') {
        Some(i) => {
            let rest = p.subrange(i + 1, p.len() as int);
            let vend = match find_from(rest, 0, '=') {
                Some(j) => j,
                None => rest.len() as int,
            };
            Some((p.subrange(0, i), rest.subrange(0, vend)))
        },
        None => None,
    }
}

/// The entries of a `;`-separated list, in order; `None` as soon as one
/// entry does not parse.
pub open spec fn pairs_of(s: Seq<char>) -> Option<Seq<(Seq<char>, Seq<char>)>>
    decreases s.len(),
{
    let cut = match find_from(s, 0, ';') {
        Some(j) => j,
        None => s.len() as int,
    };
    // The search cannot really land out of bounds; the clamp makes the
    // recursion's termination plain.
    let segend = if 0 <= cut <= s.len() {
        cut
    } else {
        s.len() as int
    };
    match pair_of(s.subrange(0, segend)) {
        Some(kv) => if segend == s.len() {
            Some(seq![kv])
        } else {
            match pairs_of(s.subrange(segend + 1, s.len() as int)) {
                Some(rest) => Some(seq![kv] + rest),
                None => None,
            }
        },
        None => None,
    }
}

/// The input with every trailing `;` removed.
pub open spec fn trim_trailing_semis(s: Seq<char>) -> Seq<char>
    decreases s.len(),
{
    if s.len() > 0 && s[s.len() - 1] == ';' {
        trim_trailing_semis(s.drop_last())
    } else {
        s
    }
}

/// What a properties string denotes: the empty string is the empty list,
/// trailing delimiters are ignored, and otherwise every `;`-separated
/// entry must parse as `key=val`.
pub open spec fn props_of(s: Seq<char>) -> Option<Seq<(Seq<char>, Seq<char>)>> {
    if s.len() == 0 {
        Some(Seq::empty())
    } else {
        pairs_of(trim_trailing_semis(s))
    }
}

/// The entries a vector of owned pairs denotes.
pub open spec fn entries_view(vs: Seq<(String, String)>) -> Seq<(Seq<char>, Seq<char>)> {
    Seq::new(vs.len(), |i: int| (vs[i].0@, vs[i].1@))
}

/// Appends parsed entries behind an already-parsed prefix, keeping the
/// failure of the remainder.
pub open spec fn opt_append(
    a: Seq<(Seq<char>, Seq<char>)>,
    o: Option<Seq<(Seq<char>, Seq<char>)>>,
) -> Option<Seq<(Seq<char>, Seq<char>)>> {
    match o {
        Some(r) => Some(a + r),
        None => None,
    }
}

/// The string the entries print back to: `key=val;` for each entry.
pub open spec fn spec_props_string(vs: Seq<(Seq<char>, Seq<char>)>) -> Seq<char>
    decreases vs.len(),
{
    if vs.len() == 0 {
        Seq::empty()
    } else {
        vs[0].0 + seq!['='] + vs[0].1 + seq![';'] + spec_props_string(vs.drop_first())
    }
}

/// Generic properties in the format `key1=val1;key2=val2`, parsed once,
/// at startup, into a list of pairs.
#[derive(Debug)]
pub struct Properties {
    values: Vec<(String, String)>,
}

impl View for Properties {
    type V = Seq<(Seq<char>, Seq<char>)>;

    closed spec fn view(&self) -> Seq<(Seq<char>, Seq<char>)> {
        entries_view(self.values@)
    }
}

impl Default for Properties {
    fn default() -> (r: Properties)
        ensures
            r@ == Seq::<(Seq<char>, Seq<char>)>::empty(),
    {
        let r = Properties { values: Vec::new() };
        proof {
            assert(r@ =~= Seq::<(Seq<char>, Seq<char>)>::empty());
        }
        r
    }
}

impl Properties {
    /// Parses a properties string; `ConfigInvalid` exactly when the string
    /// does not denote a list of entries.
    pub fn from_str(input: &str) -> (r: Result<Properties, Error>)
        ensures
            match props_of(input@) {
                Some(vs) => r matches Ok(p) && p@ == vs,
                None => r == Err::<Properties, Error>(Error::ConfigInvalid),
            },
    {
        let n = input.unicode_len();
        if n == 0 {
            let p = Properties { values: Vec::new() };
            proof {
                assert(p@ =~= Seq::<(Seq<char>, Seq<char>)>::empty());
            }
            return Ok(p);
        }
        // Ignore every trailing delimiter.
        let mut e = n;
        proof {
            assert(input@.subrange(0, n as int) =~= input@);
        }
        loop
            invariant_except_break
                e <= n,
                n == input@.len(),
                trim_trailing_semis(input@) == trim_trailing_semis(
                    input@.subrange(0, e as int),
                ),
            ensures
                e <= n,
                n == input@.len(),
                trim_trailing_semis(input@) == input@.subrange(0, e as int),
            decreases e,
        {
            if e == 0 {
                proof {
                    assert(input@.subrange(0, 0) =~= Seq::<char>::empty());
                }
                break;
            }
            let c = input.get_char(e - 1);
            if c != ';' {
                break;
            }
            proof {
                let ghost cur = input@.subrange(0, e as int);
                assert(cur[cur.len() - 1] == ';');
                assert(cur.drop_last() =~= input@.subrange(0, e as int - 1));
            }
            e = e - 1;
        }
        let t = input.substring_char(0, e);
        let tn = e;
        proof {
            assert(t@ == trim_trailing_semis(input@));
        }
        let mut pos: usize = 0;
        let mut values: Vec<(String, String)> = Vec::new();
        proof {
            assert(t@.subrange(0, tn as int) =~= t@);
            assert(entries_view(values@) =~= Seq::<(Seq<char>, Seq<char>)>::empty());
            match pairs_of(t@) {
                Some(r0) => {
                    assert(entries_view(values@) + r0 =~= r0);
                },
                None => {},
            }
        }
        loop
            invariant_except_break
                pos <= tn,
                tn == t@.len(),
                t@ == trim_trailing_semis(input@),
                n == input@.len(),
                0 < n,
                opt_append(
                    entries_view(values@),
                    pairs_of(t@.subrange(pos as int, tn as int)),
                ) == pairs_of(t@),
            ensures
                t@ == trim_trailing_semis(input@),
                n == input@.len(),
                0 < n,
                pairs_of(t@) == Some(entries_view(values@)),
            decreases tn - pos,
        {
            let ghost sfx = t@.subrange(pos as int, tn as int);
            let segend = match find_char(t, pos, ';') {
                Some(j) => j,
                None => tn,
            };
            proof {
                lemma_find_from(t@, pos as int, ';');
                lemma_find_from_subrange(t@, pos as int, tn as int, ';');
                assert(segend <= tn);
                // The segment boundary of the suffix is `segend - pos`.
                assert(sfx.len() == tn - pos);
            }
            let ghost segend_rel = segend as int - pos as int;
            let ghost seg = sfx.subrange(0, segend_rel);
            proof {
                assert(seg =~= t@.subrange(pos as int, segend as int));
            }
            // The key ends at the first `=` of the segment.
            let eq_opt = find_char(t, pos, '=');
            proof {
                lemma_find_from(t@, pos as int, '=');
                lemma_find_from_subrange(t@, pos as int, segend as int, '=');
            }
            let eq = match eq_opt {
                Some(q) => {
                    if q < segend {
                        q
                    } else {
                        proof {
                            assert(pair_of(seg) is None);
                            assert(pairs_of(sfx) is None);
                        }
                        return Err(Error::ConfigInvalid);
                    }
                },
                None => {
                    proof {
                        assert(pair_of(seg) is None);
                        assert(pairs_of(sfx) is None);
                    }
                    return Err(Error::ConfigInvalid);
                },
            };
            // The value ends at the next `=`, or at the segment's end.
            let ghost rest = seg.subrange(eq as int - pos as int + 1, seg.len() as int);
            proof {
                assert(rest =~= t@.subrange(eq as int + 1, segend as int));
                lemma_find_from(t@, eq as int + 1, '=');
                lemma_find_from_subrange(t@, eq as int + 1, segend as int, '=');
            }
            let vend = match find_char(t, eq + 1, '=') {
                Some(v) => if v < segend {
                    v
                } else {
                    segend
                },
                None => segend,
            };
            let key = t.substring_char(pos, eq).to_owned();
            let val = t.substring_char(eq + 1, vend).to_owned();
            proof {
                assert(key@ =~= seg.subrange(0, eq as int - pos as int));
                assert(val@ =~= rest.subrange(0, vend as int - eq as int - 1));
                assert(pair_of(seg) == Some((key@, val@)));
            }
            let ghost entries_before = entries_view(values@);
            values.push((key, val));
            proof {
                assert(entries_view(values@) =~= entries_before.push(
                    (values@[values@.len() - 1].0@, values@[values@.len() - 1].1@),
                ));
            }
            if segend == tn {
                proof {
                    assert(pairs_of(sfx) == Some(seq![(pair_of(seg)->Some_0)]));
                    assert(entries_before + seq![(pair_of(seg)->Some_0)] =~= entries_view(
                        values@,
                    ));
                }
                break;
            }
            proof {
                let sfx2 = t@.subrange(segend as int + 1, tn as int);
                assert(sfx.subrange(segend_rel + 1, sfx.len() as int) =~= sfx2);
                match pairs_of(sfx2) {
                    Some(r2) => {
                        assert(entries_before + (seq![(pair_of(seg)->Some_0)] + r2)
                            =~= entries_view(values@) + r2);
                    },
                    None => {},
                }
            }
            pos = segend + 1;
        }
        Ok(Properties { values })
    }

    /// Prints the entries back as `key=val;` for each entry, in order.
    pub fn to_string(&self) -> (r: String)
        ensures
            r@ == spec_props_string(self@),
    {
        let mut out = String::new();
        let mut i: usize = 0;
        let n = self.values.len();
        proof {
            assert(self@.skip(0) =~= self@);
            assert(out@ + spec_props_string(self@) =~= spec_props_string(self@));
        }
        while i < n
            invariant
                i <= n,
                n == self.values@.len(),
                out@ + spec_props_string(self@.skip(i as int)) == spec_props_string(self@),
            decreases n - i,
        {
            let kv = vstd::slice::slice_index_get(self.values.as_slice(), i);
            out.append(kv.0.as_str());
            out.append("=");
            out.append(kv.1.as_str());
            out.append(";");
            proof {
                reveal_strlit("=");
                reveal_strlit(";");
                assert("="@ =~= seq!['=']);
                assert(";"@ =~= seq![';']);
                let ev = self@;
                assert(ev.skip(i as int)[0] == ev[i as int]);
                assert(ev.skip(i as int).drop_first() =~= ev.skip(i as int + 1));
                assert(out@ + spec_props_string(ev.skip(i as int + 1)) =~= spec_props_string(
                    ev,
                ));
            }
            i = i + 1;
        }
        proof {
            assert(self@.skip(n as int) =~= Seq::<(Seq<char>, Seq<char>)>::empty());
            assert(out@ =~= spec_props_string(self@));
        }
        out
    }

    /// How many entries there are.
    pub fn len(&self) -> (r: usize)
        ensures
            r == self@.len(),
    {
        self.values.len()
    }

    /// The entry at `index`, in parse order.
    pub fn get(&self, index: usize) -> (r: Option<&(String, String)>)
        ensures
            match r {
                Some(kv) => index < self@.len() && self@[index as int] == (kv.0@, kv.1@),
                None => index >= self@.len(),
            },
    {
        if index < self.values.len() {
            Some(vstd::slice::slice_index_get(self.values.as_slice(), index))
        } else {
            None
        }
    }
}

/// The application's state as the configuration collaborator hands it
/// over: every option already merged from file and argument sources.
#[derive(Debug)]
pub struct Config {
    pub debug: bool,
    pub conf_file: Option<String>,
    pub lyrics: Lyrics,
    pub width: bool,
    pub height: bool,
    pub fullscreen: bool,
    pub dark_mode: bool,
    pub stay_on_top: bool,
    pub api: Option<API>,
    pub player: Option<Player>,
    pub audiosync: bool,
    pub audiosync_calibration: i32,
    pub mpv_properties: Properties,
    pub client_id: Option<String>,
    pub client_secret: Option<String>,
    pub redirect_uri: String,
    pub refresh_token: Option<String>,
}

impl Default for Config {
    fn default() -> (c: Config)
        ensures
            !c.debug,
            c.conf_file is None,
            c.lyrics == Lyrics::LyricWikia,
            !c.width,
            !c.height,
            !c.fullscreen,
            !c.dark_mode,
            !c.stay_on_top,
            c.api is None,
            c.player is None,
            !c.audiosync,
            c.audiosync_calibration == 0,
            c.mpv_properties@ == Seq::<(Seq<char>, Seq<char>)>::empty(),
            c.client_id is None,
            c.client_secret is None,
            c.redirect_uri@ == "http://localhost:8888/callback/"@,
            c.refresh_token is None,
    {
        Config {
            debug: false,
            conf_file: None,
            lyrics: Lyrics::LyricWikia,
            width: false,
            height: false,
            fullscreen: false,
            dark_mode: false,
            stay_on_top: false,
            api: None,
            player: None,
            audiosync: false,
            audiosync_calibration: 0,
            mpv_properties: Properties::default(),
            client_id: None,
            client_secret: None,
            redirect_uri: String::from_str("http://localhost:8888/callback/"),
            refresh_token: None,
        }
    }
}

} // verus!

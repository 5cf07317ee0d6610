//! Text layout helpers: indentation, banners, and rows of item texts.
use vstd::prelude::*;

verus! {

/// `n` copies of the character `ch`.
pub open spec fn repeat_char(ch: char, n: nat) -> Seq<char> {
    Seq::new(n, |_i: int| ch)
}

/// Indentation of `left` spaces.
pub open spec fn pad(left: nat) -> Seq<char> {
    repeat_char(' ', left)
}

/// Builds an indentation string of `left` spaces.
pub fn offset(left: usize) -> (r: String)
    ensures
        r@ == pad(left as nat),
{
    let mut accum = String::new();
    let mut i: usize = 0;
    while i < left
        invariant
            i <= left,
            accum@ == pad(i as nat),
        decreases left - i,
    {
        accum.append(" ");
        proof {
            reveal_strlit(" ");
            assert(accum@ =~= pad((i + 1) as nat));
        }
        i += 1;
    }
    accum
}

/// Finds the character index of the last occurrence of `chr` in `s`.
pub fn find_last_utf8(s: &str, chr: char) -> (r: Option<usize>)
    ensures
        match r {
            Some(i) => i < s@.len() && s@[i as int] == chr
                && forall|j: int| i < j < s@.len() ==> s@[j] != chr,
            None => forall|j: int| 0 <= j < s@.len() ==> s@[j] != chr,
        },
{
    let n = s.unicode_len();
    let mut last: Option<usize> = None;
    let mut pos: usize = 0;
    proof {
        broadcast use vstd::string::axiom_spec_iter;
    }
    for c in it: s.chars()
        invariant
            n == s@.len(),
            it.seq() == s@,
            pos == it.index(),
            match last {
                Some(i) => i < pos && s@[i as int] == chr
                    && forall|j: int| i < j < pos ==> s@[j] != chr,
                None => forall|j: int| 0 <= j < pos ==> s@[j] != chr,
            },
    {
        if c == chr {
            last = Some(pos);
        }
        pos += 1;
    }
    last
}

/// Builds a string of `n` copies of `ch`.
pub fn indent(ch: char, n: usize) -> (r: String)
    ensures
        r@ == repeat_char(ch, n as nat),
{
    let mut accum = String::new();
    let mut i: usize = 0;
    while i < n
        invariant
            i <= n,
            accum@ == repeat_char(ch, i as nat),
        decreases n - i,
    {
        push_char(&mut accum, ch);
        assert(accum@ =~= repeat_char(ch, (i + 1) as nat));
        i += 1;
    }
    accum
}

/// Relies on `String::push`: appends one character.
#[verifier::external_body]
fn push_char(s: &mut String, ch: char)
    ensures
        final(s)@ == old(s)@.push(ch),
{
    s.push(ch);
}

/// The banner text: a line of `n` dashes, the note indented by two
/// spaces, and the line again, each on a line of its own.
pub open spec fn banner(note: Seq<char>, n: nat) -> Seq<char> {
    let line = repeat_char('-', n);
    seq!['\n'] + line + seq!['\n', ' ', ' '] + note + seq!['\n'] + line + seq!['\n']
}

/// Builds the banner that frames `note` between two lines of `n` dashes.
pub fn label(note: &str, n: usize) -> (r: String)
    ensures
        r@ == banner(note@, n as nat),
{
    let line = indent('-', n);
    let mut accum = String::new();
    push_char(&mut accum, '\n');
    accum.append(line.as_str());
    push_char(&mut accum, '\n');
    push_char(&mut accum, ' ');
    push_char(&mut accum, ' ');
    accum.append(note);
    push_char(&mut accum, '\n');
    accum.append(line.as_str());
    push_char(&mut accum, '\n');
    assert(accum@ =~= banner(note@, n as nat));
    accum
}

/// Width of the banner that `label_def` draws.
pub const LABEL_WIDTH: usize = 50;

/// Builds the banner for `note` at the default width.
pub fn label_def(note: &str) -> (r: String)
    ensures
        r@ == banner(note@, LABEL_WIDTH as nat),
{
    label(note, LABEL_WIDTH)
}

/// What follows item `i` when more items come: a comma and a space, and a
/// line break with fresh indentation after every `width` items (never after
/// the first item).
pub open spec fn separator(i: int, left: nat, width: nat) -> Seq<char> {
    if (i + 1) % (width as int) == 0 && i != 0 {
        seq![',', ' ', '\n'] + pad(left)
    } else {
        seq![',', ' ']
    }
}

/// The first `n` item texts, each followed by its separator but the last.
pub open spec fn joined(texts: Seq<Seq<char>>, n: nat, left: nat, width: nat) -> Seq<char>
    decreases n,
{
    if n == 0 {
        Seq::empty()
    } else if n == 1 {
        texts[0]
    } else {
        joined(texts, (n - 1) as nat, left, width) + separator(n - 2, left, width) + texts[n - 1]
    }
}

/// Item texts laid out in rows of `width` items, indented by `left` spaces.
pub open spec fn folded(texts: Seq<Seq<char>>, left: nat, width: nat) -> Seq<char> {
    pad(left) + joined(texts, texts.len(), left, width)
}

/// Lays out item texts in rows of `width` items, each row indented by
/// `left` spaces, items separated by ", ".
pub fn fold_texts(texts: &Vec<String>, left: usize, width: usize) -> (r: String)
    requires
        texts.len() > 0 ==> width > 0,
    ensures
        r@ == folded(texts@.map_values(|t: String| t@), left as nat, width as nat),
{
    let ghost ts = texts@.map_values(|t: String| t@);
    let mut accum = offset(left);
    let mut i: usize = 0;
    while i < texts.len()
        invariant
            i <= texts.len(),
            texts.len() > 0 ==> width > 0,
            ts == texts@.map_values(|t: String| t@),
            i == 0 ==> accum@ == pad(left as nat),
            i > 0 ==> accum@ == pad(left as nat) + joined(ts, i as nat, left as nat, width as nat)
                + separator(i - 1, left as nat, width as nat),
        decreases texts.len() - i,
    {
        let ghost before = accum@;
        accum.append(texts[i].as_str());
        accum.append(", ");
        proof {
            reveal_strlit(", ");
        }
        if (i + 1) % width == 0 && i != 0 {
            push_char(&mut accum, '\n');
            let ind = offset(left);
            accum.append(ind.as_str());
        }
        proof {
            let sep = separator(i as int, left as nat, width as nat);
            assert(accum@ =~= before + ts[i as int] + sep);
            if i == 0 {
                assert(joined(ts, 1, left as nat, width as nat) == ts[0]);
                assert(accum@ =~= pad(left as nat) + joined(ts, 1, left as nat, width as nat) + sep);
            } else {
                assert(accum@ =~= pad(left as nat) + joined(ts, (i + 1) as nat, left as nat,
                    width as nat) + sep);
            }
        }
        i += 1;
    }
    let n = texts.len();
    let ghost body = joined(ts, n as nat, left as nat, width as nat);
    let found = find_last_utf8(accum.as_str(), ',');
    match found {
        Some(idx) => {
            proof {
                let p: int = (pad(left as nat).len() + body.len()) as int;
                let sep = separator(n - 1, left as nat, width as nat);
                assert(n > 0) by {
                    if n == 0 {
                        assert(accum@[idx as int] == pad(left as nat)[idx as int]);
                    }
                }
                assert(accum@ =~= (pad(left as nat) + body) + sep);
                assert(accum@[p] == ',');
                assert(idx >= p);
                if idx > p {
                    assert(accum@[idx as int] == sep[idx - p]);
                    assert(sep[idx - p] != ',');
                }
            }
            let kept = accum.as_str().substring_char(0, idx);
            let r = kept.to_owned();
            proof {
                assert(r@ =~= pad(left as nat) + body);
            }
            r
        },
        None => {
            proof {
                if n > 0 {
                    let p: int = (pad(left as nat).len() + body.len()) as int;
                    let sep = separator(n - 1, left as nat, width as nat);
                    assert(accum@ =~= (pad(left as nat) + body) + sep);
                    assert(accum@[p] == ',');
                }
                assert(body =~= Seq::<char>::empty()) by {
                    if n > 0 {
                    }
                }
                assert(accum@ =~= pad(left as nat) + body);
            }
            accum
        },
    }
}

/// Relies on the `Debug` formatting of `I` (`format!("{:?}")`): the text of
/// one item. Nothing is assumed of that text.
#[verifier::external_body]
fn debug_text<I: std::fmt::Debug>(item: &I) -> (r: String) {
    format!("{:?}", item)
}

/// The `Debug` text of each item, in order.
fn debug_texts<I: std::fmt::Debug>(items: &[I]) -> (r: Vec<String>)
    ensures
        r@.len() == items@.len(),
{
    let mut texts: Vec<String> = Vec::new();
    let mut i: usize = 0;
    while i < items.len()
        invariant
            i <= items@.len(),
            texts@.len() == i,
        decreases items@.len() - i,
    {
        texts.push(debug_text(&items[i]));
        i += 1;
    }
    texts
}

/// Lays out the `Debug` texts of `items` in rows of `width` items, each row
/// indented by `left` spaces, items separated by ", ".
pub fn fold<I: std::fmt::Debug>(items: &[I], left: usize, width: usize) -> (r: String)
    requires
        items@.len() > 0 ==> width > 0,
    ensures
        exists|texts: Seq<Seq<char>>|
            texts.len() == items@.len() && r@ == #[trigger] folded(texts, left as nat, width as nat),
{
    let texts = debug_texts(items);
    let r = fold_texts(&texts, left, width);
    assert(texts@.map_values(|t: String| t@).len() == items@.len());
    r
}

/// The first `n` item texts separated by ", ".
pub open spec fn comma_joined(texts: Seq<Seq<char>>, n: nat) -> Seq<char>
    decreases n,
{
    if n == 0 {
        Seq::empty()
    } else if n == 1 {
        texts[0]
    } else {
        comma_joined(texts, (n - 1) as nat) + seq![',', ' '] + texts[n - 1]
    }
}

/// Joins item texts into one comma-separated list: each text is followed
/// by ", ", and the last comma is then cut off with what follows it.
pub fn csl_texts(texts: &Vec<String>) -> (r: String)
    ensures
        r@ == comma_joined(texts@.map_values(|t: String| t@), texts@.len()),
{
    let ghost ts = texts@.map_values(|t: String| t@);
    let mut accum = String::new();
    let mut i: usize = 0;
    while i < texts.len()
        invariant
            i <= texts.len(),
            ts == texts@.map_values(|t: String| t@),
            i == 0 ==> accum@ == Seq::<char>::empty(),
            i > 0 ==> accum@ == comma_joined(ts, i as nat) + seq![',', ' '],
        decreases texts.len() - i,
    {
        let ghost before = accum@;
        accum.append(texts[i].as_str());
        accum.append(", ");
        proof {
            reveal_strlit(", ");
            if i == 0 {
                assert(accum@ =~= comma_joined(ts, 1) + seq![',', ' ']);
            } else {
                assert(accum@ =~= comma_joined(ts, (i + 1) as nat) + seq![',', ' ']);
            }
        }
        i += 1;
    }
    let n = texts.len();
    let ghost body = comma_joined(ts, n as nat);
    match find_last_utf8(accum.as_str(), ',') {
        Some(idx) => {
            proof {
                assert(n > 0);
                assert(accum@[body.len() as int] == ',');
                assert(idx == body.len());
            }
            let r = accum.as_str().substring_char(0, idx).to_owned();
            proof {
                assert(r@ =~= body);
            }
            r
        },
        None => {
            proof {
                if n > 0 {
                    assert(accum@[body.len() as int] == ',');
                }
                assert(accum@ =~= body);
            }
            accum
        },
    }
}

/// Joins the `Debug` texts of `items` into one comma-separated list.
pub fn csl<I: std::fmt::Debug>(items: &[I]) -> (r: String)
    ensures
        exists|texts: Seq<Seq<char>>|
            texts.len() == items@.len() && r@ == #[trigger] comma_joined(texts, texts.len()),
{
    let texts = debug_texts(items);
    let r = csl_texts(&texts);
    assert(texts@.map_values(|t: String| t@).len() == items@.len());
    r
}

} // verus!

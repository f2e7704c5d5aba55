use vstd::prelude::*;

use crate::errors::Errcode;
use crate::text::push_char;

verus! {

/// The characters that `str::split_ascii_whitespace` splits on:
/// space, tab, line feed, form feed and carriage return.
pub open spec fn is_ascii_ws(c: char) -> bool {
    c == ' ' || c == '\t' || c == '\n' || c == '\x0C' || c == '\r'
}

/// The words found in `s` so far, and the word being read, after reading
/// `s` from left to right.
pub open spec fn scan_words(s: Seq<char>) -> (Seq<Seq<char>>, Seq<char>)
    decreases s.len(),
{
    if s.len() == 0 {
        (Seq::empty(), Seq::empty())
    } else {
        let (done, cur) = scan_words(s.drop_last());
        let c = s.last();
        if is_ascii_ws(c) {
            if cur.len() > 0 {
                (done.push(cur), Seq::empty())
            } else {
                (done, Seq::empty())
            }
        } else {
            (done, cur.push(c))
        }
    }
}

/// The maximal runs of characters other than ASCII whitespace in `s`, in order.
pub open spec fn words(s: Seq<char>) -> Seq<Seq<char>> {
    let (done, cur) = scan_words(s);
    if cur.len() > 0 {
        done.push(cur)
    } else {
        done
    }
}

/// The characters of `s` other than ASCII whitespace, in order.
pub open spec fn word_chars(s: Seq<char>) -> Seq<char> {
    s.filter(|c: char| !is_ascii_ws(c))
}

proof fn lemma_scan_words(s: Seq<char>)
    ensures
        forall|i: int| 0 <= i < scan_words(s).0.len() ==> #[trigger] scan_words(s).0[i].len() > 0,
        forall|i: int, j: int|
            0 <= i < scan_words(s).0.len() && 0 <= j < scan_words(s).0[i].len() ==> !is_ascii_ws(
                #[trigger] scan_words(s).0[i][j],
            ) && s.contains(scan_words(s).0[i][j]),
        forall|j: int|
            0 <= j < scan_words(s).1.len() ==> !is_ascii_ws(#[trigger] scan_words(s).1[j])
                && s.contains(scan_words(s).1[j]),
        scan_words(s).0.flatten_alt() + scan_words(s).1 == word_chars(s),
    decreases s.len(),
{
    if s.len() == 0 {
        reveal(Seq::filter);
        assert(word_chars(s) =~= Seq::<char>::empty());
        assert(Seq::<Seq<char>>::empty().flatten_alt() =~= Seq::<char>::empty());
    } else {
        let p = s.drop_last();
        let c = s.last();
        lemma_scan_words(p);
        let (done, cur) = scan_words(p);
        assert(s =~= p.push(c));
        p.lemma_filter_push(c, |c: char| !is_ascii_ws(c));
        assert forall|x: char| p.contains(x) implies s.contains(x) by {
            let k = choose|k: int| 0 <= k < p.len() && p[k] == x;
            assert(s[k] == x);
        }
        assert(s.contains(c)) by {
            assert(s[s.len() - 1] == c);
        }
        if is_ascii_ws(c) {
            if cur.len() > 0 {
                let nd = done.push(cur);
                assert(nd.drop_last() =~= done);
                assert(nd.flatten_alt() == done.flatten_alt() + cur);
                assert(nd.flatten_alt() + Seq::<char>::empty() =~= nd.flatten_alt());
                assert forall|i: int, j: int|
                    0 <= i < nd.len() && 0 <= j < nd[i].len() implies !is_ascii_ws(
                        #[trigger] nd[i][j],
                    ) && s.contains(nd[i][j]) by {
                    if i < done.len() {
                        assert(nd[i] == done[i]);
                        assert(p.contains(done[i][j]));
                    } else {
                        assert(nd[i] == cur);
                        assert(p.contains(cur[j]));
                    }
                }
            } else {
                assert(cur =~= Seq::<char>::empty());
                assert(done.flatten_alt() + Seq::<char>::empty() =~= done.flatten_alt());
                assert forall|i: int, j: int|
                    0 <= i < done.len() && 0 <= j < done[i].len() implies s.contains(
                        #[trigger] done[i][j],
                    ) by {
                    assert(p.contains(done[i][j]));
                }
            }
        } else {
            let nc = cur.push(c);
            assert(done.flatten_alt() + nc =~= (done.flatten_alt() + cur).push(c));
            assert forall|j: int| 0 <= j < nc.len() implies !is_ascii_ws(#[trigger] nc[j])
                && s.contains(nc[j]) by {
                if j < cur.len() {
                    assert(p.contains(cur[j]));
                }
            }
            assert forall|i: int, j: int|
                0 <= i < done.len() && 0 <= j < done[i].len() implies s.contains(
                    #[trigger] done[i][j],
                ) by {
                assert(p.contains(done[i][j]));
            }
        }
    }
}

/// Splitting on ASCII whitespace gives words that are not empty and hold no
/// ASCII whitespace, each of whose characters comes from the string; laid end
/// to end they give back the string without its whitespace; and there is no
/// word at all exactly when the string holds nothing but whitespace.
pub proof fn lemma_words(s: Seq<char>)
    ensures
        forall|i: int| 0 <= i < words(s).len() ==> #[trigger] words(s)[i].len() > 0,
        forall|i: int, j: int|
            0 <= i < words(s).len() && 0 <= j < words(s)[i].len() ==> !is_ascii_ws(
                #[trigger] words(s)[i][j],
            ) && s.contains(words(s)[i][j]),
        words(s).flatten() == word_chars(s),
        words(s).len() == 0 <==> (forall|k: int| 0 <= k < s.len() ==> is_ascii_ws(#[trigger] s[k])),
{
    lemma_scan_words(s);
    let (done, cur) = scan_words(s);
    let w = words(s);
    if cur.len() > 0 {
        let nd = done.push(cur);
        assert(nd.drop_last() =~= done);
        assert forall|i: int, j: int|
            0 <= i < w.len() && 0 <= j < w[i].len() implies !is_ascii_ws(#[trigger] w[i][j])
                && s.contains(w[i][j]) by {
            if i < done.len() {
                assert(w[i] == done[i]);
            } else {
                assert(w[i] == cur);
            }
        }
        assert(w.flatten_alt() == done.flatten_alt() + cur);
    } else {
        assert(done.flatten_alt() + cur =~= done.flatten_alt());
    }
    w.lemma_flatten_and_flatten_alt_are_equivalent();
    if w.len() == 0 {
        assert(w.flatten_alt() =~= Seq::<char>::empty());
        assert forall|k: int| 0 <= k < s.len() implies is_ascii_ws(#[trigger] s[k]) by {
            if !is_ascii_ws(s[k]) {
                s.lemma_filter_contains(|c: char| !is_ascii_ws(c), k);
                assert(word_chars(s).contains(s[k]));
            }
        }
    } else {
        assert(w[0].len() > 0);
        let c = w[0][0];
        assert(!is_ascii_ws(c) && s.contains(c));
        let k = choose|k: int| 0 <= k < s.len() && s[k] == c;
        assert(!is_ascii_ws(s[k]));
    }
}

/// A run of characters none of which is space, tab, line feed, form feed or
/// carriage return.
pub open spec fn has_no_separator(w: Seq<char>) -> bool {
    forall|i: int|
        0 <= i < w.len() ==> #[trigger] w[i] != ' ' && w[i] != '\t' && w[i] != '\n' && w[i]
            != '\x0C' && w[i] != '\r'
}

proof fn lemma_scan_append_word(p: Seq<char>, w: Seq<char>)
    requires
        has_no_separator(w),
    ensures
        scan_words(p + w) == (scan_words(p).0, scan_words(p).1 + w),
    decreases w.len(),
{
    if w.len() == 0 {
        assert(p + w =~= p);
        assert(scan_words(p).1 + w =~= scan_words(p).1);
    } else {
        let w0 = w.drop_last();
        assert(has_no_separator(w0)) by {
            assert forall|i: int| 0 <= i < w0.len() implies #[trigger] w0[i] != ' ' && w0[i]
                != '\t' && w0[i] != '\n' && w0[i] != '\x0C' && w0[i] != '\r' by {
                assert(w0[i] == w[i]);
            }
        }
        lemma_scan_append_word(p, w0);
        assert((p + w).drop_last() =~= p + w0);
        assert((p + w).last() == w[w.len() - 1]);
        assert(!is_ascii_ws(w[w.len() - 1]));
        assert((scan_words(p).1 + w0).push(w[w.len() - 1]) =~= scan_words(p).1 + w);
    }
}

/// A command splits only at space, tab, line feed, form feed and carriage
/// return: a non-empty run of other characters is one word, whatever it
/// holds (dots, dashes, slashes, NUL, non-ASCII letters), and two such runs
/// with one of those five characters between them are two words.
pub proof fn lemma_split_only_on_ascii_whitespace(a: Seq<char>, sep: char, b: Seq<char>)
    requires
        a.len() > 0,
        b.len() > 0,
        has_no_separator(a),
        has_no_separator(b),
        sep == ' ' || sep == '\t' || sep == '\n' || sep == '\x0C' || sep == '\r',
    ensures
        words(a) == seq![a],
        words(a + seq![sep] + b) == seq![a, b],
{
    let e = Seq::<char>::empty();
    assert(scan_words(e) == (Seq::<Seq<char>>::empty(), e));
    lemma_scan_append_word(e, a);
    assert(e + a =~= a);
    assert(e + a =~= a);
    assert(scan_words(a) == (Seq::<Seq<char>>::empty(), a));
    assert(seq![a] =~= Seq::<Seq<char>>::empty().push(a));
    let p = a + seq![sep];
    assert(p.drop_last() =~= a);
    assert(p.last() == sep);
    assert(scan_words(p) == (seq![a], e)) by {
        assert(Seq::<Seq<char>>::empty().push(a) =~= seq![a]);
    }
    lemma_scan_append_word(p, b);
    assert(e + b =~= b);
    assert(seq![a].push(b) =~= seq![a, b]);
}

pub fn is_ascii_whitespace(c: char) -> (b: bool)
    ensures
        b == is_ascii_ws(c),
{
    c == ' ' || c == '\t' || c == '\n' || c == '\x0C' || c == '\r'
}

/// Splits `command` into its words, as `str::split_ascii_whitespace` does.
pub fn split_ascii_whitespace(command: &str) -> (argv: Vec<String>)
    ensures
        argv.deep_view() == words(command@),
{
    let mut done: Vec<String> = Vec::new();
    let mut cur: String = String::new();
    let ghost s = command@;
    for c in it: command.chars()
        invariant
            it.seq() == s,
            done.deep_view() == scan_words(s.take(it.index() as int)).0,
            cur@ == scan_words(s.take(it.index() as int)).1,
    {
        let ghost i = it.index();
        assert(s.take(i + 1).drop_last() =~= s.take(i as int));
        assert(s.take(i + 1).last() == c);
        if is_ascii_whitespace(c) {
            if !cur.as_str().is_empty() {
                let word = cur;
                done.push(word);
                cur = String::new();
            }
        } else {
            push_char(&mut cur, c);
        }
    }
    proof {
        assert(s.take(s.len() as int) =~= s);
    }
    if !cur.as_str().is_empty() {
        done.push(cur);
    }
    done
}

/// A command that the runtime can run: it has a word to take as the program,
/// and no NUL character, which no argument of a process can hold.
pub open spec fn is_runnable_command(command: Seq<char>) -> bool {
    words(command).len() > 0 && !command.contains('\0')
}

/// Whether `command` can be run; the runtime gives up on any other.
pub fn command_is_runnable(command: &str) -> (b: bool)
    ensures
        b == is_runnable_command(command@),
{
    let ghost s = command@;
    let mut has_word = false;
    let mut has_nul = false;
    for c in it: command.chars()
        invariant
            it.seq() == s,
            has_word == exists|k: int| 0 <= k < it.index() && !is_ascii_ws(#[trigger] s[k]),
            has_nul == exists|k: int| 0 <= k < it.index() && #[trigger] s[k] == '\0',
    {
        let ghost i = it.index();
        assert(s[i as int] == c);
        if !is_ascii_whitespace(c) {
            has_word = true;
        }
        if c == '\0' {
            has_nul = true;
        }
    }
    proof {
        lemma_words(s);
        if has_word {
            let k = choose|k: int| 0 <= k < s.len() && !is_ascii_ws(#[trigger] s[k]);
            assert(!is_ascii_ws(s[k]));
        }
    }
    has_word && !has_nul
}

/// What the container is made of.
#[derive(Debug, Clone)]
pub struct ContainerOpts {
    /// The program to execute: the first word of the command.
    pub path: String,
    /// The words of the command.
    pub argv: Vec<String>,
    pub uid: u32,
    pub mount_dir: String,
    /// The container's end of the socket pair.
    pub fd: i32,
    pub hostname: String,
}

impl ContainerOpts {
    /// Builds the configuration of a container that runs `command`, given the
    /// socket pair that was asked for and the hostname that was drawn: an
    /// error in making the sockets, and then one in drawing the hostname, is
    /// handed on; otherwise the container gets the second socket and the
    /// hostname, and the pair is handed back.
    pub fn new(
        command: String,
        uid: u32,
        mount_dir: String,
        sockets: Result<(i32, i32), Errcode>,
        hostname: Result<String, Errcode>,
    ) -> (r: Result<
        (ContainerOpts, (i32, i32)),
        Errcode,
    >)
        requires
            is_runnable_command(command@),
        ensures
            sockets matches Err(e) ==> r == Err::<(ContainerOpts, (i32, i32)), Errcode>(e),
            sockets is Ok ==> (hostname matches Err(e) ==> r == Err::<
                (ContainerOpts, (i32, i32)),
                Errcode,
            >(e)),
            sockets matches Ok(pair) ==> (hostname matches Ok(h) ==> (r matches Ok((opts, back))
                && back == pair && opts.argv.deep_view() == words(command@) && opts.path@ == words(
                command@,
            )[0] && opts.uid == uid && opts.mount_dir == mount_dir && opts.fd == pair.1
                && opts.hostname == h)),
    {
        let argv = split_ascii_whitespace(command.as_str());
        assert(argv.deep_view()[0] == argv@[0]@);
        let path = argv[0].clone();
        let sockets = match sockets {
            Ok(pair) => pair,
            Err(e) => {
                return Err(e);
            },
        };
        let hostname = match hostname {
            Ok(h) => h,
            Err(e) => {
                return Err(e);
            },
        };
        Ok((ContainerOpts { path, argv, uid, mount_dir, fd: sockets.1, hostname }, sockets))
    }
}

} // verus!

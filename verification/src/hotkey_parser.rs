use vstd::prelude::*;

use crate::text::{chars_of, range_eq, split_on, split_ranges, lemma_split_on_nonempty};

verus! {

/// A configured hotkey, split into its modifiers and its one key name.
#[derive(Debug, Clone, PartialEq, Eq)]
pub struct ParsedHotkey {
    pub ctrl: bool,
    pub alt: bool,
    pub shift: bool,
    pub cmd: bool,
    pub key_name: String,
}

/// The words that name a modifier in a hotkey text.
pub open spec fn is_modifier_token(t: Seq<char>) -> bool {
    ||| t == "Ctrl"@
    ||| t == "Alt"@
    ||| t == "Shift"@
    ||| t == "Cmd"@
    ||| t == "Super"@
}

/// The `+`-separated pieces of a hotkey text.
pub open spec fn hotkey_tokens(s: Seq<char>) -> Seq<Seq<char>> {
    split_on(s, '+')
}

/// The pieces of a hotkey text that are not modifiers, in order.
pub open spec fn key_tokens(parts: Seq<Seq<char>>) -> Seq<Seq<char>> {
    parts.filter(|t: Seq<char>| !is_modifier_token(t))
}

/// A text is a hotkey when it is not empty and exactly one of its pieces is not a modifier.
pub open spec fn is_hotkey_text(s: Seq<char>) -> bool {
    s.len() > 0 && key_tokens(hotkey_tokens(s)).len() == 1
}

proof fn lemma_key_tokens_prefix(parts: Seq<Seq<char>>, k: int)
    requires
        0 <= k <= parts.len(),
    ensures
        key_tokens(parts.take(k)).len() <= key_tokens(parts).len(),
        key_tokens(parts.take(k)) == key_tokens(parts).take(key_tokens(parts.take(k)).len() as int),
{
    let pred = |t: Seq<char>| !is_modifier_token(t);
    assert(parts =~= parts.take(k) + parts.skip(k));
    Seq::filter_distributes_over_add(parts.take(k), parts.skip(k), pred);
    assert(key_tokens(parts) == key_tokens(parts.take(k)) + key_tokens(parts.skip(k)));
    assert(key_tokens(parts.take(k)) =~= key_tokens(parts).take(
        key_tokens(parts.take(k)).len() as int,
    ));
}

proof fn lemma_key_tokens_step(parts: Seq<Seq<char>>, k: int)
    requires
        0 <= k < parts.len(),
    ensures
        key_tokens(parts.take(k + 1)) == if is_modifier_token(parts[k]) {
            key_tokens(parts.take(k))
        } else {
            key_tokens(parts.take(k)).push(parts[k])
        },
{
    reveal_with_fuel(Seq::<_>::filter, 1);
    assert(parts.take(k + 1).drop_last() =~= parts.take(k));
    assert(parts.take(k + 1).last() == parts[k]);
}

/// `m` followed by `+` and then `rest` when `flag` is set, `rest` alone otherwise.
pub open spec fn prefixed(flag: bool, m: Seq<char>, rest: Seq<char>) -> Seq<char> {
    if flag {
        m.push('+') + rest
    } else {
        rest
    }
}

/// A hotkey written in the configuration syntax: each modifier that is set, in the order
/// Ctrl, Alt, Shift, Cmd, followed by `+`, and then the key name.
pub open spec fn hotkey_text(ctrl: bool, alt: bool, shift: bool, cmd: bool, key: Seq<char>) -> Seq<
    char,
> {
    prefixed(ctrl, "Ctrl"@, prefixed(alt, "Alt"@, prefixed(shift, "Shift"@, prefixed(cmd, "Cmd"@, key))))
}

/// A text without `+` is one piece.
proof fn lemma_split_no_sep(s: Seq<char>)
    requires
        !s.contains('+'),
    ensures
        split_on(s, '+') == seq![s],
    decreases s.len(),
{
    if s.len() > 0 {
        assert(!s.drop_last().contains('+')) by {
            if s.drop_last().contains('+') {
                let i = choose|i: int| 0 <= i < s.drop_last().len() && s.drop_last()[i] == '+';
                assert(s[i] == '+');
            }
        }
        lemma_split_no_sep(s.drop_last());
        assert(s.last() != '+') by {
            assert(s[s.len() - 1] == s.last());
        }
        assert(s.drop_last().push(s.last()) =~= s);
    } else {
        assert(s =~= Seq::<char>::empty());
    }
}

/// Splitting `a`, `+`, `b` gives the pieces of `a` followed by those of `b`.
proof fn lemma_split_append(a: Seq<char>, b: Seq<char>)
    ensures
        split_on(a.push('+') + b, '+') == split_on(a, '+') + split_on(b, '+'),
    decreases b.len(),
{
    let s = a.push('+') + b;
    lemma_split_on_nonempty(a, '+');
    if b.len() == 0 {
        assert(s =~= a.push('+'));
        assert(a.push('+').drop_last() =~= a);
        assert(split_on(a, '+').push(Seq::<char>::empty()) =~= split_on(a, '+') + seq![
            Seq::<char>::empty(),
        ]);
    } else {
        lemma_split_append(a, b.drop_last());
        lemma_split_on_nonempty(b.drop_last(), '+');
        assert(s.drop_last() =~= a.push('+') + b.drop_last());
        assert(s.last() == b.last());
        let x = split_on(a, '+');
        let y = split_on(b.drop_last(), '+');
        if b.last() == '+' {
            assert((x + y).push(Seq::<char>::empty()) =~= x + y.push(Seq::<char>::empty()));
        } else {
            assert((x + y).update((x + y).len() - 1, (x + y).last().push(b.last())) =~= x
                + y.update(y.len() - 1, y.last().push(b.last())));
        }
    }
}

/// One layer of a hotkey text: a set modifier adds its name as the first piece, which the
/// key pieces skip.
proof fn lemma_prefixed_layer(flag: bool, m: Seq<char>, rest: Seq<char>)
    requires
        !m.contains('+'),
        is_modifier_token(m),
    ensures
        hotkey_tokens(prefixed(flag, m, rest)) == if flag {
            seq![m] + hotkey_tokens(rest)
        } else {
            hotkey_tokens(rest)
        },
        key_tokens(hotkey_tokens(prefixed(flag, m, rest))) == key_tokens(hotkey_tokens(rest)),
        forall|t: Seq<char>|
            #![trigger hotkey_tokens(prefixed(flag, m, rest)).contains(t)]
            hotkey_tokens(prefixed(flag, m, rest)).contains(t) == ((flag && t == m)
                || hotkey_tokens(rest).contains(t)),
{
    let rt = hotkey_tokens(rest);
    if flag {
        lemma_split_append(m, rest);
        lemma_split_no_sep(m);
        assert(hotkey_tokens(prefixed(flag, m, rest)) == seq![m] + rt);
        let pred = |t: Seq<char>| !is_modifier_token(t);
        Seq::filter_distributes_over_add(seq![m], rt, pred);
        reveal_with_fuel(Seq::<_>::filter, 2);
        assert(seq![m].filter(pred) =~= Seq::<Seq<char>>::empty());
        assert(Seq::<Seq<char>>::empty() + rt.filter(pred) =~= rt.filter(pred));
    }
    assert forall|t: Seq<char>|
        #![trigger hotkey_tokens(prefixed(flag, m, rest)).contains(t)]
        hotkey_tokens(prefixed(flag, m, rest)).contains(t) == ((flag && t == m) || rt.contains(t)) by {
        if flag {
            let all = seq![m] + rt;
            assert(hotkey_tokens(prefixed(flag, m, rest)) == all);
            if all.contains(t) {
                let i = choose|i: int| 0 <= i < all.len() && all[i] == t;
                if i > 0 {
                    assert(rt[i - 1] == t);
                }
            }
            if t == m {
                assert(all[0] == t);
            }
            if rt.contains(t) {
                let i = choose|i: int| 0 <= i < rt.len() && rt[i] == t;
                assert(all[i + 1] == t);
            }
        }
    }
}

/// A hotkey written in the configuration syntax reads back as itself: the text is a hotkey,
/// its pieces name exactly the modifiers that were written, and its one key piece is the key
/// name, whenever that name is not empty, holds no `+` and is no modifier. So
/// `parse_hotkey_str` of the text gives those modifiers and that key name.
pub proof fn lemma_hotkey_text_round_trip(ctrl: bool, alt: bool, shift: bool, cmd: bool, key: Seq<char>)
    requires
        key.len() > 0,
        !key.contains('+'),
        !is_modifier_token(key),
    ensures
        is_hotkey_text(hotkey_text(ctrl, alt, shift, cmd, key)),
        ({
            let parts = hotkey_tokens(hotkey_text(ctrl, alt, shift, cmd, key));
            &&& parts.contains("Ctrl"@) == ctrl
            &&& parts.contains("Alt"@) == alt
            &&& parts.contains("Shift"@) == shift
            &&& (parts.contains("Cmd"@) || parts.contains("Super"@)) == cmd
            &&& key_tokens(parts)[0] == key
        }),
{
    reveal_strlit("Ctrl");
    reveal_strlit("Alt");
    reveal_strlit("Shift");
    reveal_strlit("Cmd");
    reveal_strlit("Super");
    assert(!"Ctrl"@.contains('+')) by { assert("Ctrl"@ =~= seq!['C', 't', 'r', 'l']); }
    assert(!"Alt"@.contains('+')) by { assert("Alt"@ =~= seq!['A', 'l', 't']); }
    assert(!"Shift"@.contains('+')) by { assert("Shift"@ =~= seq!['S', 'h', 'i', 'f', 't']); }
    assert(!"Cmd"@.contains('+')) by { assert("Cmd"@ =~= seq!['C', 'm', 'd']); }
    let t4 = prefixed(cmd, "Cmd"@, key);
    let t3 = prefixed(shift, "Shift"@, t4);
    let t2 = prefixed(alt, "Alt"@, t3);
    let t1 = prefixed(ctrl, "Ctrl"@, t2);
    lemma_split_no_sep(key);
    let pred = |t: Seq<char>| !is_modifier_token(t);
    reveal_with_fuel(Seq::<_>::filter, 2);
    assert(seq![key].filter(pred) =~= seq![key]);
    assert(seq![key].contains(key)) by { assert(seq![key][0] == key); }
    lemma_prefixed_layer(cmd, "Cmd"@, key);
    lemma_prefixed_layer(shift, "Shift"@, t4);
    lemma_prefixed_layer(alt, "Alt"@, t3);
    lemma_prefixed_layer(ctrl, "Ctrl"@, t2);
    assert(hotkey_text(ctrl, alt, shift, cmd, key) == t1);
    assert(t1.len() > 0) by {
        if !ctrl && !alt && !shift && !cmd {
            assert(t1 == key);
        } else {
            assert(t1.len() >= 4);
        }
    }
    let parts = hotkey_tokens(t1);
    assert("Alt"@ != "Ctrl"@ && "Shift"@ != "Ctrl"@ && "Cmd"@ != "Ctrl"@ && "Super"@ != "Ctrl"@) by {
        assert("Alt"@.len() != "Ctrl"@.len());
        assert("Shift"@.len() != "Ctrl"@.len());
        assert("Cmd"@.len() != "Ctrl"@.len());
        assert("Super"@.len() != "Ctrl"@.len());
    }
    assert("Shift"@ != "Alt"@ && "Cmd"@ != "Alt"@ && "Super"@ != "Alt"@) by {
        assert("Shift"@.len() != "Alt"@.len());
        assert("Cmd"@[0] != "Alt"@[0]);
        assert("Super"@.len() != "Alt"@.len());
    }
    assert("Cmd"@ != "Shift"@ && "Super"@ != "Shift"@) by {
        assert("Cmd"@.len() != "Shift"@.len());
        assert("Super"@[1] != "Shift"@[1]);
    }
    assert("Super"@ != "Cmd"@) by {
        assert("Super"@.len() != "Cmd"@.len());
    }
    assert(key != "Ctrl"@ && key != "Alt"@ && key != "Shift"@ && key != "Cmd"@ && key != "Super"@);
    assert(!seq![key].contains("Ctrl"@)) by {
        if seq![key].contains("Ctrl"@) {
            assert(seq![key][0] == "Ctrl"@);
        }
    }
    assert(hotkey_tokens(t4).contains("Ctrl"@) == (cmd && "Ctrl"@ == "Cmd"@ || hotkey_tokens(key).contains("Ctrl"@)));
    assert(hotkey_tokens(t3).contains("Ctrl"@) == (shift && "Ctrl"@ == "Shift"@ || hotkey_tokens(t4).contains("Ctrl"@)));
    assert(hotkey_tokens(t2).contains("Ctrl"@) == (alt && "Ctrl"@ == "Alt"@ || hotkey_tokens(t3).contains("Ctrl"@)));
    assert(hotkey_tokens(t1).contains("Ctrl"@) == (ctrl && "Ctrl"@ == "Ctrl"@ || hotkey_tokens(t2).contains("Ctrl"@)));
    assert(!seq![key].contains("Alt"@)) by {
        if seq![key].contains("Alt"@) {
            assert(seq![key][0] == "Alt"@);
        }
    }
    assert(hotkey_tokens(t4).contains("Alt"@) == (cmd && "Alt"@ == "Cmd"@ || hotkey_tokens(key).contains("Alt"@)));
    assert(hotkey_tokens(t3).contains("Alt"@) == (shift && "Alt"@ == "Shift"@ || hotkey_tokens(t4).contains("Alt"@)));
    assert(hotkey_tokens(t2).contains("Alt"@) == (alt && "Alt"@ == "Alt"@ || hotkey_tokens(t3).contains("Alt"@)));
    assert(hotkey_tokens(t1).contains("Alt"@) == (ctrl && "Alt"@ == "Ctrl"@ || hotkey_tokens(t2).contains("Alt"@)));
    assert(!seq![key].contains("Shift"@)) by {
        if seq![key].contains("Shift"@) {
            assert(seq![key][0] == "Shift"@);
        }
    }
    assert(hotkey_tokens(t4).contains("Shift"@) == (cmd && "Shift"@ == "Cmd"@ || hotkey_tokens(key).contains("Shift"@)));
    assert(hotkey_tokens(t3).contains("Shift"@) == (shift && "Shift"@ == "Shift"@ || hotkey_tokens(t4).contains("Shift"@)));
    assert(hotkey_tokens(t2).contains("Shift"@) == (alt && "Shift"@ == "Alt"@ || hotkey_tokens(t3).contains("Shift"@)));
    assert(hotkey_tokens(t1).contains("Shift"@) == (ctrl && "Shift"@ == "Ctrl"@ || hotkey_tokens(t2).contains("Shift"@)));
    assert(!seq![key].contains("Cmd"@)) by {
        if seq![key].contains("Cmd"@) {
            assert(seq![key][0] == "Cmd"@);
        }
    }
    assert(hotkey_tokens(t4).contains("Cmd"@) == (cmd && "Cmd"@ == "Cmd"@ || hotkey_tokens(key).contains("Cmd"@)));
    assert(hotkey_tokens(t3).contains("Cmd"@) == (shift && "Cmd"@ == "Shift"@ || hotkey_tokens(t4).contains("Cmd"@)));
    assert(hotkey_tokens(t2).contains("Cmd"@) == (alt && "Cmd"@ == "Alt"@ || hotkey_tokens(t3).contains("Cmd"@)));
    assert(hotkey_tokens(t1).contains("Cmd"@) == (ctrl && "Cmd"@ == "Ctrl"@ || hotkey_tokens(t2).contains("Cmd"@)));
    assert(!seq![key].contains("Super"@)) by {
        if seq![key].contains("Super"@) {
            assert(seq![key][0] == "Super"@);
        }
    }
    assert(hotkey_tokens(t4).contains("Super"@) == (cmd && "Super"@ == "Cmd"@ || hotkey_tokens(key).contains("Super"@)));
    assert(hotkey_tokens(t3).contains("Super"@) == (shift && "Super"@ == "Shift"@ || hotkey_tokens(t4).contains("Super"@)));
    assert(hotkey_tokens(t2).contains("Super"@) == (alt && "Super"@ == "Alt"@ || hotkey_tokens(t3).contains("Super"@)));
    assert(hotkey_tokens(t1).contains("Super"@) == (ctrl && "Super"@ == "Ctrl"@ || hotkey_tokens(t2).contains("Super"@)));
    assert(parts.contains("Ctrl"@) == ctrl);
    assert(parts.contains("Alt"@) == alt);
    assert(parts.contains("Shift"@) == shift);
    assert(parts.contains("Cmd"@) == cmd);
    assert(!parts.contains("Super"@));
}

/// Parses a configured hotkey such as `Ctrl+Alt+C` or `Cmd+Shift+F12`.
/// `Super` is read as `Cmd`. The text must not be empty and must name exactly one key
/// besides its modifiers; otherwise there is no hotkey.
pub fn parse_hotkey_str(hotkey_str: &str) -> (r: Option<ParsedHotkey>)
    ensures
        r is Some <==> is_hotkey_text(hotkey_str@),
        r matches Some(h) ==> {
            let parts = hotkey_tokens(hotkey_str@);
            &&& h.ctrl == parts.contains("Ctrl"@)
            &&& h.alt == parts.contains("Alt"@)
            &&& h.shift == parts.contains("Shift"@)
            &&& h.cmd == (parts.contains("Cmd"@) || parts.contains("Super"@))
            &&& h.key_name@ == key_tokens(parts)[0]
        },
{
    if hotkey_str.is_empty() {
        return None;
    }
    let cs = chars_of(hotkey_str);
    let ranges = split_ranges(&cs, '+');
    let ghost parts = hotkey_tokens(hotkey_str@);
    let lit_ctrl = chars_of("Ctrl");
    let lit_alt = chars_of("Alt");
    let lit_shift = chars_of("Shift");
    let lit_cmd = chars_of("Cmd");
    let lit_super = chars_of("Super");

    let mut ctrl = false;
    let mut alt = false;
    let mut shift = false;
    let mut cmd = false;
    let mut key: Option<(usize, usize)> = None;

    let mut k: usize = 0;
    while k < ranges.len()
        invariant
            cs@ == hotkey_str@,
            parts == split_on(cs@, '+'),
            lit_ctrl@ == "Ctrl"@,
            lit_alt@ == "Alt"@,
            lit_shift@ == "Shift"@,
            lit_cmd@ == "Cmd"@,
            lit_super@ == "Super"@,
            ranges@.len() == parts.len(),
            forall|j: int| #![trigger ranges@[j]]
                0 <= j < ranges@.len() ==> {
                    &&& ranges@[j].0 <= ranges@[j].1 <= cs@.len()
                    &&& cs@.subrange(ranges@[j].0 as int, ranges@[j].1 as int) == parts[j]
                },
            k <= ranges@.len(),
            ctrl == parts.take(k as int).contains("Ctrl"@),
            alt == parts.take(k as int).contains("Alt"@),
            shift == parts.take(k as int).contains("Shift"@),
            cmd == (parts.take(k as int).contains("Cmd"@) || parts.take(k as int).contains(
                "Super"@,
            )),
            key_tokens(parts.take(k as int)).len() <= 1,
            key is Some <==> key_tokens(parts.take(k as int)).len() == 1,
            key matches Some(kr) ==> {
                &&& kr.0 <= kr.1 <= cs@.len()
                &&& cs@.subrange(kr.0 as int, kr.1 as int) == key_tokens(parts.take(k as int))[0]
            },
        decreases ranges@.len() - k,
    {
        let (a, b) = ranges[k];
        let ghost part = parts[k as int];
        let ghost pre = parts.take(k as int);
        let ghost post = parts.take(k + 1);
        proof {
            reveal_strlit("Ctrl");
            reveal_strlit("Alt");
            reveal_strlit("Shift");
            reveal_strlit("Cmd");
            reveal_strlit("Super");
            lemma_key_tokens_step(parts, k as int);
            assert(parts.take(k + 1) =~= parts.take(k as int).push(part));
            assert forall|x: Seq<char>| post.contains(x) <==> (pre.contains(x) || part == x) by {
                if post.contains(x) {
                    let j = choose|j: int| 0 <= j < post.len() && #[trigger] post[j] == x;
                    if j < k {
                        assert(pre[j] == x);
                    }
                }
                if part == x {
                    assert(post[k as int] == x);
                } else if pre.contains(x) {
                    let j = choose|j: int| 0 <= j < pre.len() && #[trigger] pre[j] == x;
                    assert(post[j] == x);
                }
            }
            assert("Alt"@[0] != "Cmd"@[0]);
            assert("Shift"@[1] != "Super"@[1]);
            assert(post.contains("Ctrl"@) == (pre.contains("Ctrl"@) || part == "Ctrl"@));
            assert(post.contains("Alt"@) == (pre.contains("Alt"@) || part == "Alt"@));
            assert(post.contains("Shift"@) == (pre.contains("Shift"@) || part == "Shift"@));
            assert(post.contains("Cmd"@) == (pre.contains("Cmd"@) || part == "Cmd"@));
            assert(post.contains("Super"@) == (pre.contains("Super"@) || part == "Super"@));
        }
        if range_eq(&cs, a, b, &lit_ctrl) {
            ctrl = true;
        } else if range_eq(&cs, a, b, &lit_alt) {
            alt = true;
        } else if range_eq(&cs, a, b, &lit_shift) {
            shift = true;
        } else if range_eq(&cs, a, b, &lit_cmd) {
            cmd = true;
        } else if range_eq(&cs, a, b, &lit_super) {
            cmd = true;
        } else {
            if key.is_some() {
                proof {
                    lemma_key_tokens_prefix(parts, k + 1);
                }
                return None;
            }
            key = Some((a, b));
            assert(key_tokens(parts.take(k + 1))[0] == part);
        }
        k = k + 1;
    }
    assert(parts.take(ranges@.len() as int) =~= parts);
    match key {
        Some((a, b)) => {
            let name = hotkey_str.substring_char(a, b);
            let key_name = name.to_owned();
            Some(ParsedHotkey { ctrl, alt, shift, cmd, key_name })
        },
        None => None,
    }
}

/// The keys a hotkey may name.
#[derive(Debug, Clone, Copy, PartialEq, Eq, Structural)]
pub enum KeyName {
    /// A letter key, `A` to `Z`.
    Letter(char),
    /// A digit key, written `Num0` to `Num9`.
    Digit(u8),
    /// A function key, `F1` to `F12`.
    Function(u8),
    Space,
    Enter,
    Escape,
    Tab,
    Backspace,
}

/// The key that a key name denotes, if any.
pub open spec fn key_name_spec(s: Seq<char>) -> Option<KeyName> {
    if s.len() == 1 && 'A' <= s[0] <= 'Z' {
        Some(KeyName::Letter(s[0]))
    } else if s.len() == 4 && s.take(3) == "Num"@ && '0' <= s[3] <= '9' {
        Some(KeyName::Digit((s[3] as u32 - '0' as u32) as u8))
    } else if s.len() == 2 && s[0] == 'F' && '1' <= s[1] <= '9' {
        Some(KeyName::Function((s[1] as u32 - '0' as u32) as u8))
    } else if s.len() == 3 && s[0] == 'F' && s[1] == '1' && '0' <= s[2] <= '2' {
        Some(KeyName::Function((10 + (s[2] as u32 - '0' as u32)) as u8))
    } else if s == "Space"@ {
        Some(KeyName::Space)
    } else if s == "Enter"@ {
        Some(KeyName::Enter)
    } else if s == "Escape"@ {
        Some(KeyName::Escape)
    } else if s == "Tab"@ {
        Some(KeyName::Tab)
    } else if s == "Backspace"@ {
        Some(KeyName::Backspace)
    } else {
        None
    }
}

/// Reads a key name such as `S`, `Num0`, `F12` or `Space`.
pub fn parse_key_name(key_name: &str) -> (r: Option<KeyName>)
    ensures
        r == key_name_spec(key_name@),
{
    let cs = chars_of(key_name);
    let n = cs.len();
    if n == 1 && 'A' <= cs[0] && cs[0] <= 'Z' {
        return Some(KeyName::Letter(cs[0]));
    }
    let lit_num = chars_of("Num");
    if n == 4 && range_eq(&cs, 0, 3, &lit_num) && '0' <= cs[3] && cs[3] <= '9' {
        assert(cs@.take(3) == cs@.subrange(0, 3));
        return Some(KeyName::Digit((cs[3] as u32 - '0' as u32) as u8));
    }
    if n == 2 && cs[0] == 'F' && '1' <= cs[1] && cs[1] <= '9' {
        return Some(KeyName::Function((cs[1] as u32 - '0' as u32) as u8));
    }
    if n == 3 && cs[0] == 'F' && cs[1] == '1' && '0' <= cs[2] && cs[2] <= '2' {
        return Some(KeyName::Function((10 + (cs[2] as u32 - '0' as u32)) as u8));
    }
    proof {
        if n == 4 {
            assert(cs@.take(3) == cs@.subrange(0, 3));
        }
    }
    if range_eq(&cs, 0, n, &chars_of("Space")) {
        assert(cs@.subrange(0, n as int) =~= cs@);
        return Some(KeyName::Space);
    }
    if range_eq(&cs, 0, n, &chars_of("Enter")) {
        assert(cs@.subrange(0, n as int) =~= cs@);
        return Some(KeyName::Enter);
    }
    if range_eq(&cs, 0, n, &chars_of("Escape")) {
        assert(cs@.subrange(0, n as int) =~= cs@);
        return Some(KeyName::Escape);
    }
    if range_eq(&cs, 0, n, &chars_of("Tab")) {
        assert(cs@.subrange(0, n as int) =~= cs@);
        return Some(KeyName::Tab);
    }
    if range_eq(&cs, 0, n, &chars_of("Backspace")) {
        assert(cs@.subrange(0, n as int) =~= cs@);
        return Some(KeyName::Backspace);
    }
    assert(cs@.subrange(0, n as int) =~= cs@);
    None
}

/// The keys a key name can denote: letters `A` to `Z`, digits 0 to 9, function keys 1 to 12
/// and the named keys. Both the system-wide and the in-window hotkey layers have a key for
/// each of them.
pub open spec fn key_in_range(k: KeyName) -> bool {
    match k {
        KeyName::Letter(c) => 'A' <= c <= 'Z',
        KeyName::Digit(d) => d <= 9,
        KeyName::Function(n) => 1 <= n <= 12,
        _ => true,
    }
}

/// Every key a key name denotes is in range, so a configured key is usable in both hotkey
/// layers or, when it names no key, in neither.
pub proof fn lemma_key_names_in_range(s: Seq<char>)
    ensures
        key_name_spec(s) matches Some(k) ==> key_in_range(k),
{
}

} // verus!

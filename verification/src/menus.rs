//! The menus of the node: the list of instances with the choice of one,
//! the welcome list, and the actions on a chosen instance.

use vstd::prelude::*;
use crate::instance::{Instance, InstanceView};
use crate::style::{bold_text, bolded, bold_on, reset_free_len, style_reset};
use crate::text::{
    ascii_bytes, decimal, decimal_string, find_from, first_piece, first_piece_len,
    lemma_decimal_digits, lemma_decimal_parses, lemma_encode_ascii, lemma_encode_concat,
    lemma_find_first, parse_usize_between, parsed_usize, has_prefix, starts_with_bytes,
};
use vstd::utf8::{encode_utf8, is_ascii_chars, is_continuation_byte};

verus! {

/// The label of the instance at `position` in a list: `"{position + 1}. {name} ({path})"`.
pub open spec fn entry_text(position: nat, name: Seq<char>, path: Seq<char>) -> Seq<char> {
    decimal(position + 1) + seq!['.', ' '] + name + seq![' ', '('] + path + seq![')']
}

/// Writes the label of the instance at `position`.
pub fn entry_label(position: usize, name: &str, path: &str) -> (s: String)
    requires
        position < usize::MAX,
    ensures
        s@ == entry_text(position as nat, name@, path@),
{
    let mut s = decimal_string(position + 1);
    s.append(". ");
    s.append(name);
    s.append(" (");
    s.append(path);
    s.append(")");
    proof {
        reveal_strlit(". ");
        reveal_strlit(" (");
        reveal_strlit(")");
    }
    s
}

/// The last option of the home menu: `"*  Create a new instance"`.
pub open spec fn home_create_text() -> Seq<char> {
    seq![
        '*', ' ', ' ', 'C', 'r', 'e', 'a', 't', 'e', ' ', 'a', ' ', 'n', 'e', 'w', ' ', 'i', 'n',
        's', 't', 'a', 'n', 'c', 'e',
    ]
}

/// The options of the home menu: one bold label per instance, in order, then
/// the option that creates an instance.
pub fn home_options(instances: &Vec<Instance>) -> (options: Vec<String>)
    requires
        instances@.len() < usize::MAX,
    ensures
        options@.len() == instances@.len() + 1,
        forall|i: int|
            0 <= i < instances@.len() ==> {
                let label = entry_text(i as nat, instances@[i].config.name@, instances@[i].path@);
                #[trigger] options@[i]@ == label || bolded(label, options@[i]@)
            },
        options@[instances@.len() as int]@ == home_create_text(),
        // Read back, an option opens its own instance or none, never another.
        instances@.len() < 10000 ==> forall|i: int|
            0 <= i < instances@.len() ==> {
                let c = home_choice_of(encode_utf8(#[trigger] options@[i]@), instances@.len());
                c == Some(HomeChoice::Open(i as usize)) || c is None
            },
        home_choice_of(encode_utf8(options@[instances@.len() as int]@), instances@.len()) == Some(
            HomeChoice::NewInstance,
        ),
{
    let mut options: Vec<String> = Vec::new();
    let mut i: usize = 0;
    while i < instances.len()
        invariant
            i <= instances@.len() < usize::MAX,
            options@.len() == i,
            forall|j: int|
                0 <= j < i ==> {
                    let label = entry_text(j as nat, instances@[j].config.name@, instances@[j].path@);
                    #[trigger] options@[j]@ == label || bolded(label, options@[j]@)
                },
        decreases instances@.len() - i,
    {
        let entry = &instances[i];
        let label = entry_label(i, entry.config.name.as_str(), entry.path.as_str());
        let shown = bold_text(label.as_str());
        options.push(shown);
        i = i + 1;
    }
    let create = String::from_str("*  Create a new instance");
    proof {
        reveal_strlit("*  Create a new instance");
    }
    options.push(create);
    proof {
        let n = instances@.len();
        if n < 10000 {
            assert forall|i: int| 0 <= i < n implies {
                let c = home_choice_of(encode_utf8(#[trigger] options@[i]@), n);
                c == Some(HomeChoice::Open(i as usize)) || c is None
            } by {
                home_option_reads_back(
                    i as nat,
                    n,
                    instances@[i].config.name@,
                    instances@[i].path@,
                    options@[i]@,
                );
            }
        }
        home_choice_of_create(n);
    }
    options
}

/// What the user picked in the home menu.
#[derive(Debug, PartialEq, Eq, Structural)]
pub enum HomeChoice {
    /// The option that creates an instance.
    NewInstance,
    /// The instance at this position of the list.
    Open(usize),
}

/// The choice that the home menu reads from the UTF-8 bytes `b` of the
/// selected option, with `count` instances listed. An option that starts with
/// `*` creates an instance. Otherwise the text before the first `.` is taken,
/// its first four bytes (the bold sequence) are skipped, and the rest is read
/// as the 1-based position. `None` where that reading fails: the first piece
/// is shorter than four bytes or cut inside a character, the rest is no
/// number, or the number is 0 or past the list.
pub open spec fn home_choice_of(b: Seq<u8>, count: nat) -> Option<HomeChoice> {
    if b.len() > 0 && b[0] == 42u8 {
        Some(HomeChoice::NewInstance)
    } else {
        let piece = first_piece(b, seq![46u8]);
        if piece.len() < 4 || (piece.len() > 4 && is_continuation_byte(piece[4])) {
            None
        } else {
            match parsed_usize(piece.skip(4)) {
                Some(v) => if 1 <= v && v - 1 < count {
                    Some(HomeChoice::Open((v - 1) as usize))
                } else {
                    None
                },
                None => None,
            }
        }
    }
}

/// Reads the user's choice from the selected option of the home menu.
pub fn home_choice(selected: &str, count: usize) -> (c: Option<HomeChoice>)
    ensures
        c == home_choice_of(encode_utf8(selected@), count as nat),
{
    let b = selected.as_bytes();
    if b.len() > 0 && b[0] == 42u8 {
        return Some(HomeChoice::NewInstance);
    }
    let sep: Vec<u8> = vec![46u8];
    let piece_len = first_piece_len(b, sep.as_slice());
    let ghost piece = first_piece(b@, seq![46u8]);
    assert(sep@ =~= seq![46u8]);
    assert(piece =~= b@.take(piece_len as int));
    if piece_len > 4 {
        assert(piece[4] == b@[4]);
    }
    if piece_len < 4 || (piece_len > 4 && b[4] >= 0x80 && b[4] <= 0xbf) {
        return None;
    }
    assert(piece.skip(4) =~= b@.subrange(4, piece_len as int));
    match parse_usize_between(b, 4, piece_len) {
        Some(v) => if v >= 1 && v - 1 < count {
            Some(HomeChoice::Open(v - 1))
        } else {
            None
        },
        None => None,
    }
}

/// Choosing the bold label of the instance at position `i` in the home menu
/// opens the instance at position `i`.
#[verifier::spinoff_prover]
pub proof fn home_choice_of_label(
    i: nat,
    count: nat,
    name: Seq<char>,
    path: Seq<char>,
    shown: Seq<char>,
)
    requires
        i < count,
        i + 1 <= usize::MAX,
        bolded(entry_text(i, name, path), shown),
    ensures
        home_choice_of(encode_utf8(shown), count) == Some(HomeChoice::Open(i as usize)),
{
    let label = entry_text(i, name, path);
    let d = decimal(i + 1);
    lemma_decimal_digits(i + 1);
    lemma_decimal_parses((i + 1) as usize);
    let dl = d.len();
    // No reset sequence starts within the number and the ". " after it.
    assert(label[dl as int] == '.');
    assert(label[dl + 1int] == ' ');
    assert forall|j: nat|
        j < dl + 2 && j + style_reset().len() <= label.len() implies #[trigger] label.subrange(
        j as int,
        j + style_reset().len() as int,
    ) != style_reset() by {
        assert(label.subrange(j as int, j + 4int)[0] == label[j as int]);
        if j < dl {
            assert(label[j as int] == d[j as int]);
            assert(ascii_bytes(d)[j as int] == d[j as int] as u8);
            assert(crate::text::is_digit_byte(ascii_bytes(d)[j as int]));
            assert('\u{1b}' as u8 == 27u8);
        }
    }
    crate::text::lemma_find_at_least(label, style_reset(), 0, dl + 2);
    let k = reset_free_len(label);
    assert(k >= dl + 2);
    crate::text::lemma_find_bounds(label, style_reset(), 0);
    // The shown text opens with the bold sequence, the number and ". ".
    let head = d + seq!['.', ' '];
    let a = bold_on() + head;
    assert(label.take(dl + 2int) =~= head);
    assert(shown.subrange(4, 4 + k as int).take(dl + 2int) =~= shown.subrange(4, 6 + dl as int));
    assert(shown.subrange(4, 6 + dl as int) =~= head);
    assert(shown.take(6 + dl as int) =~= a);
    let rest = shown.skip(6 + dl as int);
    assert(shown =~= a + rest);
    assert('\u{1b}' as u8 == 27u8);
    assert('[' as u8 == 91u8);
    assert('1' as u8 == 49u8);
    assert('m' as u8 == 109u8);
    assert('.' as u8 == 46u8);
    assert(' ' as u8 == 32u8);
    assert forall|j: int| 0 <= j < a.len() implies '\0' <= #[trigger] a[j] <= '\u{7f}' by {
        if 4 <= j < 4 + dl {
            assert(a[j] == d[j - 4]);
            assert(ascii_bytes(d)[j - 4] == d[j - 4] as u8);
        }
    }
    assert(is_ascii_chars(a));
    lemma_encode_concat(a, rest);
    lemma_encode_ascii(a);
    let b = encode_utf8(shown);
    assert(b == ascii_bytes(a) + encode_utf8(rest));
    assert(b[0] == 27u8);
    // The first '.' follows the number.
    let dot = seq![46u8];
    assert forall|j: nat| 0 <= j < 4 + dl implies #[trigger] b.subrange(
        j as int,
        j + dot.len() as int,
    ) != dot by {
        assert(b.subrange(j as int, j + 1int)[0] == b[j as int]);
        assert(b[j as int] == a[j as int] as u8);
        if 4 <= j {
            assert(a[j as int] == d[j - 4]);
            assert(ascii_bytes(d)[j - 4] == d[j - 4] as u8);
            assert(crate::text::is_digit_byte(ascii_bytes(d)[j - 4]));
        }
    }
    assert(b[4 + dl as int] == 46u8);
    assert(b.subrange(4 + dl as int, 5 + dl as int) =~= dot);
    lemma_find_first(b, dot, 0, 4 + dl);
    let piece = first_piece(b, dot);
    assert(piece =~= ascii_bytes(bold_on() + d));
    assert(piece.skip(4) =~= ascii_bytes(d));
    assert(piece[4] == ascii_bytes(d)[0]);
    assert(crate::text::is_digit_byte(ascii_bytes(d)[0]));
}

/// Reading back a label of the home menu that `colored` left plain opens no
/// instance: the four bytes that the reader skips are not there, so the
/// number is lost (with fewer than ten thousand instances listed).
pub proof fn home_choice_of_plain_label(i: nat, count: nat, name: Seq<char>, path: Seq<char>)
    requires
        i + 1 < 10000,
    ensures
        home_choice_of(encode_utf8(entry_text(i, name, path)), count) is None,
{
    let d = decimal(i + 1);
    lemma_decimal_digits(i + 1);
    crate::text::lemma_decimal_short(i + 1);
    let dl = d.len();
    let a = d + seq!['.', ' '];
    let rest = name + seq![' ', '('] + path + seq![')'];
    assert(entry_text(i, name, path) =~= a + rest);
    assert('.' as u8 == 46u8);
    assert(' ' as u8 == 32u8);
    assert forall|j: int| 0 <= j < a.len() implies '\0' <= #[trigger] a[j] <= '\u{7f}' by {
        if j < dl {
            assert(ascii_bytes(d)[j] == d[j] as u8);
        }
    }
    lemma_encode_concat(a, rest);
    lemma_encode_ascii(a);
    let b = encode_utf8(entry_text(i, name, path));
    assert(b == ascii_bytes(a) + encode_utf8(rest));
    assert(b[0] == ascii_bytes(d)[0]);
    assert(crate::text::is_digit_byte(ascii_bytes(d)[0]));
    let dot = seq![46u8];
    assert forall|j: nat| 0 <= j < dl implies #[trigger] b.subrange(j as int, j + dot.len() as int)
        != dot by {
        assert(b.subrange(j as int, j + 1int)[0] == b[j as int]);
        assert(b[j as int] == ascii_bytes(d)[j as int]);
        assert(crate::text::is_digit_byte(ascii_bytes(d)[j as int]));
    }
    assert(b.subrange(dl as int, dl + 1int) =~= dot);
    lemma_find_first(b, dot, 0, dl);
    let piece = first_piece(b, dot);
    assert(piece =~= ascii_bytes(d));
    assert(piece.len() <= 4);
    if piece.len() == 4 {
        assert(piece.skip(4) =~= Seq::<u8>::empty());
    }
}

/// Reading back an option of the home menu opens the instance it was made
/// for or, where `colored` left the label plain, none: never another
/// instance (with fewer than ten thousand instances listed).
pub proof fn home_option_reads_back(
    i: nat,
    count: nat,
    name: Seq<char>,
    path: Seq<char>,
    shown: Seq<char>,
)
    requires
        i < count,
        i + 1 < 10000,
        shown == entry_text(i, name, path) || bolded(entry_text(i, name, path), shown),
    ensures
        home_choice_of(encode_utf8(shown), count) == Some(HomeChoice::Open(i as usize))
            || home_choice_of(encode_utf8(shown), count) is None,
        bolded(entry_text(i, name, path), shown) ==> home_choice_of(encode_utf8(shown), count)
            == Some(HomeChoice::Open(i as usize)),
{
    if bolded(entry_text(i, name, path), shown) {
        home_choice_of_label(i, count, name, path, shown);
    } else {
        home_choice_of_plain_label(i, count, name, path);
    }
}

/// Choosing the option that creates an instance in the home menu creates one.
pub proof fn home_choice_of_create(count: nat)
    ensures
        home_choice_of(encode_utf8(home_create_text()), count) == Some(HomeChoice::NewInstance),
{
    assert('*' as u8 == 42u8);
    crate::text::lemma_first_byte(home_create_text());
}

/// The first option of the welcome list: `"* Create a new instance"`.
pub open spec fn welcome_create_text() -> Seq<char> {
    seq![
        '*', ' ', 'C', 'r', 'e', 'a', 't', 'e', ' ', 'a', ' ', 'n', 'e', 'w', ' ', 'i', 'n', 's',
        't', 'a', 'n', 'c', 'e',
    ]
}

/// The options of the welcome list: the option that creates an instance, then
/// one plain label per instance, in order.
pub fn welcome_options(instances: &Vec<Instance>) -> (options: Vec<String>)
    requires
        instances@.len() < usize::MAX,
    ensures
        options@.len() == instances@.len() + 1,
        options@[0]@ == welcome_create_text(),
        forall|i: int|
            0 <= i < instances@.len() ==> #[trigger] options@[i + 1]@ == entry_text(
                i as nat,
                instances@[i].config.name@,
                instances@[i].path@,
            ),
{
    let mut options: Vec<String> = Vec::new();
    let create = String::from_str("* Create a new instance");
    proof {
        reveal_strlit("* Create a new instance");
    }
    options.push(create);
    let mut i: usize = 0;
    while i < instances.len()
        invariant
            i <= instances@.len() < usize::MAX,
            options@.len() == i + 1,
            options@[0]@ == welcome_create_text(),
            forall|j: int|
                0 <= j < i ==> #[trigger] options@[j + 1]@ == entry_text(
                    j as nat,
                    instances@[j].config.name@,
                    instances@[j].path@,
                ),
        decreases instances@.len() - i,
    {
        let entry = &instances[i];
        options.push(entry_label(i, entry.config.name.as_str(), entry.path.as_str()));
        i = i + 1;
    }
    options
}

/// What the user picked in the welcome list.
#[derive(Debug, PartialEq, Eq, Structural)]
pub enum WelcomePick {
    /// An option that names no instance.
    NoInstance,
    /// The instance at this position of the list.
    Instance(usize),
}

/// The pick that the welcome list reads from the UTF-8 bytes `b` of the
/// selected option, with `count` instances listed: the text before the first
/// `". "` is read as the 1-based position of an instance; where it is no
/// number, the option names no instance. `None` where the number is 0 or past
/// the list.
pub open spec fn welcome_pick_of(b: Seq<u8>, count: nat) -> Option<WelcomePick> {
    match parsed_usize(first_piece(b, seq![46u8, 32u8])) {
        Some(v) => if 1 <= v && v <= count {
            Some(WelcomePick::Instance((v - 1) as usize))
        } else {
            None
        },
        None => Some(WelcomePick::NoInstance),
    }
}

/// Reads the user's pick from the selected option of the welcome list.
pub fn welcome_pick(selected: &str, count: usize) -> (p: Option<WelcomePick>)
    ensures
        p == welcome_pick_of(encode_utf8(selected@), count as nat),
{
    let b = selected.as_bytes();
    let sep: Vec<u8> = vec![46u8, 32u8];
    assert(sep@ =~= seq![46u8, 32u8]);
    let piece_len = first_piece_len(b, sep.as_slice());
    assert(first_piece(b@, seq![46u8, 32u8]) =~= b@.subrange(0, piece_len as int));
    match parse_usize_between(b, 0, piece_len) {
        Some(v) => if v >= 1 && v <= count {
            Some(WelcomePick::Instance(v - 1))
        } else {
            None
        },
        None => Some(WelcomePick::NoInstance),
    }
}

/// Choosing the label of the instance at position `i` in the welcome list
/// picks the instance at position `i`.
pub proof fn welcome_pick_of_label(i: nat, count: nat, name: Seq<char>, path: Seq<char>)
    requires
        i < count,
        i + 1 <= usize::MAX,
    ensures
        welcome_pick_of(encode_utf8(entry_text(i, name, path)), count) == Some(
            WelcomePick::Instance(i as usize),
        ),
{
    let d = decimal(i + 1);
    lemma_decimal_digits(i + 1);
    lemma_decimal_parses((i + 1) as usize);
    let dl = d.len();
    let a = d + seq!['.', ' '];
    let rest = name + seq![' ', '('] + path + seq![')'];
    assert(entry_text(i, name, path) =~= a + rest);
    assert('.' as u8 == 46u8);
    assert(' ' as u8 == 32u8);
    assert forall|j: int| 0 <= j < a.len() implies '\0' <= #[trigger] a[j] <= '\u{7f}' by {
        if j < dl {
            assert(ascii_bytes(d)[j] == d[j] as u8);
        }
    }
    lemma_encode_concat(a, rest);
    lemma_encode_ascii(a);
    let b = encode_utf8(entry_text(i, name, path));
    assert(b == ascii_bytes(a) + encode_utf8(rest));
    let sep = seq![46u8, 32u8];
    assert forall|j: nat| 0 <= j < dl implies #[trigger] b.subrange(j as int, j + sep.len() as int)
        != sep by {
        assert(b.subrange(j as int, j + 2int)[0] == b[j as int]);
        assert(b[j as int] == ascii_bytes(d)[j as int]);
        assert(crate::text::is_digit_byte(ascii_bytes(d)[j as int]));
    }
    assert(b.subrange(dl as int, dl + 2int) =~= sep);
    lemma_find_first(b, sep, 0, dl);
    assert(first_piece(b, sep) =~= ascii_bytes(d));
}

/// Choosing the option that creates an instance in the welcome list picks no
/// instance.
pub proof fn welcome_pick_of_create(count: nat)
    ensures
        welcome_pick_of(encode_utf8(welcome_create_text()), count) == Some(WelcomePick::NoInstance),
{
    assert('*' as u8 == 42u8);
    crate::text::lemma_first_byte(welcome_create_text());
    let b = encode_utf8(welcome_create_text());
    let sep = seq![46u8, 32u8];
    crate::text::lemma_find_bounds(b, sep, 0);
    if b.len() >= 2 {
        assert(b.subrange(0, 2)[0] == b[0]);
        assert(b.subrange(0, 2) != sep);
    }
    crate::text::lemma_find_bounds(b, sep, 1);
    assert(find_from(b, sep, 0) > 0);
    let piece = first_piece(b, sep);
    assert(piece.len() > 0);
    assert(piece[0] == 42u8);
    assert(!crate::text::is_digit_byte(piece[0]));
}

/// What the welcome screen answers: the selected option and, where it names
/// one, a copy of the chosen instance.
pub struct ResponseInfo {
    pub text: String,
    pub instance: Option<Instance>,
}

/// The text of an optional instance.
pub open spec fn opt_instance(i: Option<Instance>) -> Option<InstanceView> {
    match i {
        Some(x) => Some(x@),
        None => None,
    }
}

/// The welcome screen's answer for the selected option: `None` where the
/// option's number is 0 or past the list.
pub fn welcome_response(selected: String, instances: &Vec<Instance>) -> (r: Option<ResponseInfo>)
    ensures
        match welcome_pick_of(encode_utf8(selected@), instances@.len()) {
            None => r is None,
            Some(WelcomePick::NoInstance) => r is Some && r->0.text@ == selected@
                && r->0.instance is None,
            Some(WelcomePick::Instance(k)) => r is Some && r->0.text@ == selected@
                && opt_instance(r->0.instance) == Some(instances@[k as int]@),
        },
{
    match welcome_pick(selected.as_str(), instances.len()) {
        None => None,
        Some(WelcomePick::NoInstance) => Some(ResponseInfo { text: selected, instance: None }),
        Some(WelcomePick::Instance(k)) => {
            let chosen = instances[k].duplicate();
            Some(ResponseInfo { text: selected, instance: Some(chosen) })
        },
    }
}

/// The options of an instance's menu, in order.
pub open spec fn instance_menu_texts() -> Seq<Seq<char>> {
    seq![
        seq!['1', '.', ' ', 'H', 'o', 's', 't', ' ', 't', 'h', 'i', 's', ' ', 'i', 'n', 's', 't', 'a', 'n', 'c', 'e'],
        seq![
            '2', '.', ' ', 'C', 'o', 'n', 'n', 'e', 'c', 't', ' ', 't', 'o', ' ', 'a', 'n', ' ', 'a',
            'c', 't', 'i', 'v', 'e', ' ', 'n', 'o', 'd', 'e',
        ],
        seq![
            '3', '.', ' ', 'H', 'o', 's', 't', ' ', 't', 'h', 'i', 's', ' ', 'i', 'n', 's', 't', 'a',
            'n', 'c', 'e', ' ', 'l', 'o', 'c', 'a', 'l', 'l', 'y',
        ],
        seq!['*', ' ', ' ', 'S', 'e', 't', 't', 'i', 'n', 'g', 's'],
        seq!['*', ' ', ' ', 'E', 'x', 'i', 't', ' ', 'i', 'n', 's', 't', 'a', 'n', 'c', 'e'],
    ]
}

/// The options of an instance's menu: host, connect, host locally, settings,
/// exit.
pub fn instance_menu_options() -> (options: Vec<String>)
    ensures
        options.deep_view() == instance_menu_texts(),
{
    let mut options: Vec<String> = Vec::new();
    options.push(String::from_str("1. Host this instance"));
    options.push(String::from_str("2. Connect to an active node"));
    options.push(String::from_str("3. Host this instance locally"));
    options.push(String::from_str("*  Settings"));
    options.push(String::from_str("*  Exit instance"));
    proof {
        reveal_strlit("1. Host this instance");
        reveal_strlit("2. Connect to an active node");
        reveal_strlit("3. Host this instance locally");
        reveal_strlit("*  Settings");
        reveal_strlit("*  Exit instance");
    }
    assert(options@[0]@ =~= instance_menu_texts()[0]);
    assert(options@[1]@ =~= instance_menu_texts()[1]);
    assert(options@[2]@ =~= instance_menu_texts()[2]);
    assert(options@[3]@ =~= instance_menu_texts()[3]);
    assert(options@[4]@ =~= instance_menu_texts()[4]);
    assert(options.deep_view() =~= instance_menu_texts());
    options
}

/// What to do after an option of an instance's menu.
#[derive(Debug, PartialEq, Eq, Structural)]
pub enum InstanceAction {
    /// Host the instance through the remote service.
    Host,
    /// Connect to the node that hosts the instance.
    Connect,
    /// Ask, then run the server on this machine only.
    HostLocally,
    /// Leave the instance's menu.
    Exit,
    /// Show the menu again.
    Stay,
}

/// The action of the instance page for the UTF-8 bytes `b` of the selected
/// option, by its first characters: `1`, `2`, `3`, or `*  E`.
pub open spec fn instance_page_action_of(b: Seq<u8>) -> InstanceAction {
    if has_prefix(b, seq![49u8]) {
        InstanceAction::Host
    } else if has_prefix(b, seq![50u8]) {
        InstanceAction::Connect
    } else if has_prefix(b, seq![51u8]) {
        InstanceAction::HostLocally
    } else if has_prefix(b, seq![42u8, 32u8, 32u8, 69u8]) {
        InstanceAction::Exit
    } else {
        InstanceAction::Stay
    }
}

/// The action of the instance page for the selected option.
pub fn instance_page_action(selected: &str) -> (a: InstanceAction)
    ensures
        a == instance_page_action_of(encode_utf8(selected@)),
{
    let b = selected.as_bytes();
    let one: Vec<u8> = vec![49u8];
    let two: Vec<u8> = vec![50u8];
    let three: Vec<u8> = vec![51u8];
    let exit: Vec<u8> = vec![42u8, 32u8, 32u8, 69u8];
    assert(one@ =~= seq![49u8]);
    assert(two@ =~= seq![50u8]);
    assert(three@ =~= seq![51u8]);
    assert(exit@ =~= seq![42u8, 32u8, 32u8, 69u8]);
    if starts_with_bytes(b, one.as_slice()) {
        InstanceAction::Host
    } else if starts_with_bytes(b, two.as_slice()) {
        InstanceAction::Connect
    } else if starts_with_bytes(b, three.as_slice()) {
        InstanceAction::HostLocally
    } else if starts_with_bytes(b, exit.as_slice()) {
        InstanceAction::Exit
    } else {
        InstanceAction::Stay
    }
}

/// The action of the instance screen for the UTF-8 bytes `b` of the selected
/// option: only `3` (host locally) and `*  Exit` act there.
pub open spec fn instance_screen_action_of(b: Seq<u8>) -> InstanceAction {
    if has_prefix(b, seq![51u8]) {
        InstanceAction::HostLocally
    } else if has_prefix(b, seq![42u8, 32u8, 32u8, 69u8, 120u8, 105u8, 116u8]) {
        InstanceAction::Exit
    } else {
        InstanceAction::Stay
    }
}

/// The action of the instance screen for the selected option.
pub fn instance_screen_action(selected: &str) -> (a: InstanceAction)
    ensures
        a == instance_screen_action_of(encode_utf8(selected@)),
{
    let b = selected.as_bytes();
    let three: Vec<u8> = vec![51u8];
    let exit: Vec<u8> = vec![42u8, 32u8, 32u8, 69u8, 120u8, 105u8, 116u8];
    assert(three@ =~= seq![51u8]);
    assert(exit@ =~= seq![42u8, 32u8, 32u8, 69u8, 120u8, 105u8, 116u8]);
    if starts_with_bytes(b, three.as_slice()) {
        InstanceAction::HostLocally
    } else if starts_with_bytes(b, exit.as_slice()) {
        InstanceAction::Exit
    } else {
        InstanceAction::Stay
    }
}

/// `"*  Exit"`: how the option that leaves an instance's menu begins.
pub open spec fn exit_option_start() -> Seq<char> {
    seq!['*', ' ', ' ', 'E', 'x', 'i', 't']
}

/// The text `p` of ASCII characters, and any text that begins with it, are
/// encoded beginning with the bytes of `p`.
proof fn lemma_ascii_start(p: Seq<char>, s: Seq<char>)
    requires
        vstd::utf8::is_ascii_chars(p),
        p.len() <= s.len(),
        s.take(p.len() as int) == p,
    ensures
        has_prefix(encode_utf8(s), ascii_bytes(p)),
{
    let rest = s.skip(p.len() as int);
    assert(s =~= p + rest);
    lemma_encode_concat(p, rest);
    lemma_encode_ascii(p);
    assert(encode_utf8(s).take(p.len() as int) =~= ascii_bytes(p));
}

/// The bytes of the starts of the instance menu's options.
proof fn lemma_option_start_bytes()
    ensures
        ascii_bytes(seq!['1']) == seq![49u8],
        ascii_bytes(seq!['2']) == seq![50u8],
        ascii_bytes(seq!['3']) == seq![51u8],
        ascii_bytes(exit_option_start()) == seq![42u8, 32u8, 32u8, 69u8, 120u8, 105u8, 116u8],
        ascii_bytes(exit_option_start().take(4)) == seq![42u8, 32u8, 32u8, 69u8],
{
    assert('1' as u8 == 49u8);
    assert('2' as u8 == 50u8);
    assert('3' as u8 == 51u8);
    assert('*' as u8 == 42u8);
    assert(' ' as u8 == 32u8);
    assert('E' as u8 == 69u8);
    assert('x' as u8 == 120u8);
    assert('i' as u8 == 105u8);
    assert('t' as u8 == 116u8);
    assert(ascii_bytes(seq!['1']) =~= seq![49u8]);
    assert(ascii_bytes(seq!['2']) =~= seq![50u8]);
    assert(ascii_bytes(seq!['3']) =~= seq![51u8]);
    assert(ascii_bytes(exit_option_start()) =~= seq![
        42u8,
        32u8,
        32u8,
        69u8,
        120u8,
        105u8,
        116u8,
    ]);
    assert(ascii_bytes(exit_option_start().take(4)) =~= seq![42u8, 32u8, 32u8, 69u8]);
}

/// The instance screen leaves only on an option that begins with `"*  Exit"`,
/// hosts locally exactly on one that begins with `3`, and otherwise shows its
/// menu again; every text that begins so is read so.
pub proof fn instance_screen_reads_option_starts(b: Seq<u8>, s: Seq<char>)
    ensures
        instance_screen_action_of(b) == InstanceAction::Exit <==> has_prefix(
            b,
            ascii_bytes(exit_option_start()),
        ),
        instance_screen_action_of(b) == InstanceAction::HostLocally <==> has_prefix(
            b,
            ascii_bytes(seq!['3']),
        ),
        !has_prefix(b, ascii_bytes(exit_option_start())) && !has_prefix(b, ascii_bytes(seq!['3']))
            ==> instance_screen_action_of(b) == InstanceAction::Stay,
        7 <= s.len() && s.take(7) == exit_option_start() ==> instance_screen_action_of(
            encode_utf8(s),
        ) == InstanceAction::Exit,
        1 <= s.len() && s[0] == '3' ==> instance_screen_action_of(encode_utf8(s))
            == InstanceAction::HostLocally,
{
    lemma_option_start_bytes();
    if has_prefix(b, seq![51u8]) {
        assert(b[0] == b.take(1)[0]);
        if has_prefix(b, seq![42u8, 32u8, 32u8, 69u8, 120u8, 105u8, 116u8]) {
            assert(b[0] == b.take(7)[0]);
        }
    }
    if 7 <= s.len() && s.take(7) == exit_option_start() {
        lemma_ascii_start(exit_option_start(), s);
        let e = encode_utf8(s);
        assert(e[0] == e.take(7)[0]);
        assert(!has_prefix(e, seq![51u8])) by {
            if has_prefix(e, seq![51u8]) {
                assert(e[0] == e.take(1)[0]);
            }
        }
    }
    if 1 <= s.len() && s[0] == '3' {
        assert(s.take(1) =~= seq!['3']);
        lemma_ascii_start(seq!['3'], s);
    }
}

/// The instance page hosts exactly on an option that begins with `1`,
/// connects exactly on one that begins with `2`, hosts locally exactly on one
/// that begins with `3`, leaves exactly on one that begins with `"*  E"`, and
/// otherwise shows its menu again.
pub proof fn instance_page_reads_option_starts(b: Seq<u8>)
    ensures
        instance_page_action_of(b) == InstanceAction::Host <==> has_prefix(
            b,
            ascii_bytes(seq!['1']),
        ),
        instance_page_action_of(b) == InstanceAction::Connect <==> has_prefix(
            b,
            ascii_bytes(seq!['2']),
        ),
        instance_page_action_of(b) == InstanceAction::HostLocally <==> has_prefix(
            b,
            ascii_bytes(seq!['3']),
        ),
        instance_page_action_of(b) == InstanceAction::Exit <==> has_prefix(
            b,
            ascii_bytes(exit_option_start().take(4)),
        ),
        instance_page_action_of(b) == InstanceAction::Stay <==> !has_prefix(
            b,
            ascii_bytes(seq!['1']),
        ) && !has_prefix(b, ascii_bytes(seq!['2'])) && !has_prefix(b, ascii_bytes(seq!['3']))
            && !has_prefix(b, ascii_bytes(exit_option_start().take(4))),
{
    lemma_option_start_bytes();
    if b.len() > 0 {
        assert(b.take(1)[0] == b[0]);
        if b.len() >= 4 {
            assert(b.take(4)[0] == b[0]);
        }
    }
}

/// The action that each option of an instance's menu leads to: on the
/// instance page, host, connect, host locally, stay (settings) and exit; on
/// the instance screen, only hosting locally and exiting act, the settings
/// and the other options show the menu again.
pub proof fn instance_menu_option_actions()
    ensures
        instance_page_action_of(encode_utf8(instance_menu_texts()[0])) == InstanceAction::Host,
        instance_page_action_of(encode_utf8(instance_menu_texts()[1])) == InstanceAction::Connect,
        instance_page_action_of(encode_utf8(instance_menu_texts()[2]))
            == InstanceAction::HostLocally,
        instance_page_action_of(encode_utf8(instance_menu_texts()[3])) == InstanceAction::Stay,
        instance_page_action_of(encode_utf8(instance_menu_texts()[4])) == InstanceAction::Exit,
        instance_screen_action_of(encode_utf8(instance_menu_texts()[0])) == InstanceAction::Stay,
        instance_screen_action_of(encode_utf8(instance_menu_texts()[1])) == InstanceAction::Stay,
        instance_screen_action_of(encode_utf8(instance_menu_texts()[2]))
            == InstanceAction::HostLocally,
        instance_screen_action_of(encode_utf8(instance_menu_texts()[3])) == InstanceAction::Stay,
        instance_screen_action_of(encode_utf8(instance_menu_texts()[4])) == InstanceAction::Exit,
{
    assert('1' as u8 == 49u8);
    assert('2' as u8 == 50u8);
    assert('3' as u8 == 51u8);
    assert('*' as u8 == 42u8);
    assert(' ' as u8 == 32u8);
    assert('E' as u8 == 69u8);
    assert('S' as u8 == 83u8);
    assert('x' as u8 == 120u8);
    assert('i' as u8 == 105u8);
    assert('t' as u8 == 116u8);
    let t = instance_menu_texts();
    assert forall|k: int| 0 <= k < 5 implies vstd::utf8::is_ascii_chars(#[trigger] t[k]) by {
        assert forall|j: int| 0 <= j < t[k].len() implies '\0' <= #[trigger] t[k][j] <= '\u{7f}' by {
        }
    }
    lemma_encode_ascii(t[0]);
    lemma_encode_ascii(t[1]);
    lemma_encode_ascii(t[2]);
    lemma_encode_ascii(t[3]);
    lemma_encode_ascii(t[4]);
    let b0 = ascii_bytes(t[0]);
    let b1 = ascii_bytes(t[1]);
    let b2 = ascii_bytes(t[2]);
    let b3 = ascii_bytes(t[3]);
    let b4 = ascii_bytes(t[4]);
    assert(b0.take(1) =~= seq![49u8]);
    assert(b1.take(1) =~= seq![50u8]);
    assert(b2.take(1) =~= seq![51u8]);
    assert(b4.take(4) =~= seq![42u8, 32u8, 32u8, 69u8]);
    assert(b4.take(7) =~= seq![42u8, 32u8, 32u8, 69u8, 120u8, 105u8, 116u8]);
    assert(b0.take(1)[0] == 49u8);
    assert(b0.take(1) != seq![51u8]);
    assert(b1.take(1)[0] == 50u8);
    assert(b1.take(1) != seq![51u8]);
    assert(b3.take(1)[0] == 42u8);
    assert(b3.take(1) != seq![51u8] && b3.take(1) != seq![49u8] && b3.take(1) != seq![50u8]);
    assert(b4.take(1)[0] == 42u8);
    assert(b4.take(1) != seq![51u8] && b4.take(1) != seq![49u8] && b4.take(1) != seq![50u8]);
    assert(b3.take(4)[3] == 83u8);
    assert(b3.take(4) != seq![42u8, 32u8, 32u8, 69u8]);
    assert(b3.take(7)[3] == 83u8);
    assert(b3.take(7) != seq![42u8, 32u8, 32u8, 69u8, 120u8, 105u8, 116u8]);
    assert(b0.take(7)[0] == 49u8);
    assert(b0.take(7) != seq![42u8, 32u8, 32u8, 69u8, 120u8, 105u8, 116u8]);
    assert(b1.take(7)[0] == 50u8);
    assert(b1.take(7) != seq![42u8, 32u8, 32u8, 69u8, 120u8, 105u8, 116u8]);
}

} // verus!

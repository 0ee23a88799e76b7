//! What both ends of the control socket can rely on: a request that one end
//! writes is the request that the other end reads, and a reply likewise.

use crate::ipc::{Request, StatusSnapshot, SwitchOutcome};
use vstd::prelude::*;

verus! {

/// A line as it travels: the text with its line end.
pub open spec fn sent(line: Seq<char>) -> Seq<char> {
    line.push('\n')
}

/// What one end reads of a stream: all up to the first line end.
pub open spec fn received(stream: Seq<char>) -> Seq<char> {
    if stream.contains('\n') {
        stream.take(crate::text::first_at(stream, '\n') + 1)
    } else {
        stream
    }
}

/// A line as the other end understands it: what it reads, without white space
/// at the ends.
pub open spec fn read_back(line: Seq<char>) -> Seq<char> {
    crate::text::trimmed(received(sent(line)))
}

/// The command that the daemon takes out of a line.
pub open spec fn command_read(line: Seq<char>) -> Seq<char> {
    crate::ipc::command_text(received(sent(line)))
}

/// A text without a line end.
pub open spec fn unbroken(s: Seq<char>) -> bool {
    forall|i: int| 0 <= i < s.len() ==> #[trigger] s[i] != '\n'
}

/// A text that trimming leaves alone and that is not blank.
pub open spec fn plain(s: Seq<char>) -> bool {
    s.len() > 0 && crate::text::trimmed(s) == s
}

proof fn lemma_trim_shorter(s: Seq<char>)
    ensures
        crate::text::trim_left(s).len() <= s.len(),
        crate::text::trim_right(s).len() <= s.len(),
    decreases s.len(),
{
    if s.len() > 0 {
        lemma_trim_shorter(s.skip(1));
        lemma_trim_shorter(s.drop_last());
    }
}

/// A text is plain exactly when it neither starts nor ends in white space.
pub proof fn lemma_plain_ends(s: Seq<char>)
    requires
        s.len() > 0,
    ensures
        plain(s) <==> !crate::text::is_space(s[0]) && !crate::text::is_space(s.last()),
{
    if plain(s) {
        if crate::text::is_space(s[0]) {
            lemma_trim_shorter(s.skip(1));
            lemma_trim_shorter(crate::text::trim_left(s));
        } else if crate::text::is_space(s.last()) {
            lemma_trim_shorter(s.drop_last());
        }
    }
}

proof fn lemma_received_whole(line: Seq<char>)
    requires
        unbroken(line),
    ensures
        received(sent(line)) == sent(line),
{
    crate::text::lemma_first_at_end(line, '\n', Seq::empty());
    assert(line + seq!['\n'] + Seq::<char>::empty() =~= sent(line));
    assert(sent(line).take(line.len() as int + 1) =~= sent(line));
}

/// What is read of a line starts as the line does.
proof fn lemma_received_first(line: Seq<char>)
    requires
        line.len() > 0,
        line[0] != '\n',
    ensures
        received(sent(line)).len() > 0,
        received(sent(line))[0] == line[0],
{
    let s = sent(line);
    crate::text::lemma_first_at(s, '\n');
    assert(s[line.len() as int] == '\n');
    assert(s[0] == line[0]);
}

/// Reading a sent line gives the line back.
pub proof fn law_sent_line_read_back(line: Seq<char>)
    requires
        plain(line),
        unbroken(line),
    ensures
        read_back(line) == line,
{
    lemma_plain_ends(line);
    let s = sent(line);
    lemma_received_whole(line);
    assert(s[0] == line[0]);
    assert(crate::text::trim_left(s) == s);
    assert(s.last() == '\n');
    assert(s.drop_last() =~= line);
    assert(crate::text::trim_right(line) == line);
}

/// A line that starts without white space reaches the daemon as it is, up to
/// the trimming that its command asks for.
proof fn lemma_command_read(line: Seq<char>)
    requires
        unbroken(line),
        line.len() > 0,
        !crate::text::is_space(line[0]),
    ensures
        command_read(line) == (if "SWITCH_PROFILE "@.is_prefix_of(line) {
            line
        } else {
            crate::text::trimmed(line)
        }),
{
    lemma_received_whole(line);
    assert(sent(line).drop_last() =~= line);
    assert(crate::text::trim_left(line) == line);
}

/// A request for a controller's status is read as just that, for every id
/// without white space at its ends or a line end.
pub proof fn law_status_request_understood(id: Seq<char>)
    requires
        plain(id),
        unbroken(id),
    ensures
        crate::ipc::request_in(command_read("STATUS "@ + id)) == Request::Status(id),
{
    reveal_strlit("STATUS ");
    reveal_strlit("PING");
    reveal_strlit("LIST_CONTROLLERS");
    reveal_strlit("LIST_PROFILES");
    let line = "STATUS "@ + id;
    lemma_plain_ends(id);
    assert(line[0] == 'S');
    assert(line.last() == id.last());
    lemma_plain_ends(line);
    reveal_strlit("SWITCH_PROFILE ");
    assert("SWITCH_PROFILE "@[1] == 'W' && line[1] == 'T');
    lemma_command_read(line);
    assert("PING"@[0] == 'P');
    assert("LIST_CONTROLLERS"@[0] == 'L');
    assert("LIST_PROFILES"@[0] == 'L');
    assert("STATUS "@.is_prefix_of(line));
    assert(line.skip("STATUS "@.len() as int) =~= id);
}

/// A request to switch a profile is read as just that: for every id without a
/// space or white space at its ends, and for every name that is not blank, both
/// without a line end. The name is kept as it is, spaces at its ends included.
pub proof fn law_switch_request_understood(id: Seq<char>, name: Seq<char>)
    requires
        plain(id),
        !id.contains(' '),
        unbroken(id),
        crate::text::trimmed(name).len() > 0,
        unbroken(name),
    ensures
        crate::ipc::request_in(command_read("SWITCH_PROFILE "@ + id + " "@ + name))
            == Request::SwitchProfile(id, name),
{
    reveal_strlit("SWITCH_PROFILE ");
    reveal_strlit("STATUS ");
    reveal_strlit("PING");
    reveal_strlit("LIST_CONTROLLERS");
    reveal_strlit("LIST_PROFILES");
    reveal_strlit(" ");
    let line = "SWITCH_PROFILE "@ + id + " "@ + name;
    assert(line[0] == 'S');
    assert(line[1] == 'W');
    assert("SWITCH_PROFILE "@.is_prefix_of(line));
    lemma_command_read(line);
    assert("PING"@[0] == 'P');
    assert("LIST_CONTROLLERS"@[0] == 'L');
    assert("LIST_PROFILES"@[0] == 'L');
    assert("STATUS "@[1] == 'T');
    assert("SWITCH_PROFILE "@.is_prefix_of(line));
    let rest = line.skip("SWITCH_PROFILE "@.len() as int);
    assert(rest =~= id + seq![' '] + name);
    crate::text::lemma_first_at_end(id, ' ', name);
    crate::text::lemma_first_at(rest, ' ');
    assert(rest.take(id.len() as int) =~= id);
    assert(rest.skip((id.len() + 1) as int) =~= name);
}

/// Only a switch that was applied is reported as a success, whatever the
/// message of a failed one says.
pub proof fn law_switch_reply_understood(outcome: SwitchOutcome)
    ensures
        read_back(crate::ipc::switch_reply_of(outcome)) == "OK"@ <==> outcome is Applied,
{
    reveal_strlit("OK");
    reveal_strlit("ERR ");
    reveal_strlit("ERR that controller's thread is not accepting commands (shutting down?)");
    reveal_strlit("ERR timed out waiting for the controller to apply the switch");
    let reply = crate::ipc::switch_reply_of(outcome);
    if outcome is Applied {
        lemma_plain_ends(reply);
        law_sent_line_read_back(reply);
    } else {
        assert(reply[0] == 'E');
        lemma_received_first(reply);
        lemma_trim_keeps_first(received(sent(reply)));
        assert("OK"@[0] == 'O');
    }
}

proof fn lemma_trim_right_prefix(s: Seq<char>)
    ensures
        crate::text::trim_right(s).is_prefix_of(s),
        s.len() > 0 && !crate::text::is_space(s[0]) ==> crate::text::trim_right(s).len() > 0,
    decreases s.len(),
{
    if s.len() > 0 && crate::text::is_space(s.last()) {
        lemma_trim_right_prefix(s.drop_last());
    }
}

proof fn lemma_trim_keeps_first(s: Seq<char>)
    requires
        s.len() > 0,
        !crate::text::is_space(s[0]),
    ensures
        crate::text::trimmed(s).len() > 0,
        crate::text::trimmed(s)[0] == s[0],
{
    assert(crate::text::trim_left(s) == s);
    lemma_trim_right_prefix(s);
}

/// A name that can be listed: not blank, without white space at its ends and
/// without a comma or a line end.
pub open spec fn listable(name: Seq<char>) -> bool {
    plain(name) && !name.contains(',') && unbroken(name)
}

proof fn lemma_joined_unbroken(names: Seq<Seq<char>>)
    requires
        forall|i: int| 0 <= i < names.len() ==> listable(#[trigger] names[i]),
    ensures
        unbroken(crate::text::joined(names, ","@)),
    decreases names.len(),
{
    reveal_strlit(",");
    if names.len() == 1 {
        assert(listable(names[0]));
    } else if names.len() > 1 {
        let head = names.drop_last();
        assert forall|i: int| 0 <= i < head.len() implies listable(#[trigger] head[i]) by {
            assert(head[i] == names[i]);
        }
        lemma_joined_unbroken(head);
        assert(listable(names[names.len() - 1]));
    }
}

proof fn lemma_filled_plain(names: Seq<Seq<char>>)
    requires
        forall|i: int| 0 <= i < names.len() ==> listable(#[trigger] names[i]),
    ensures
        crate::ipc::filled(names) == names,
    decreases names.len(),
{
    if names.len() > 0 {
        assert(listable(names[0]));
        let tail = names.skip(1);
        assert forall|i: int| 0 <= i < tail.len() implies listable(#[trigger] tail[i]) by {
            assert(tail[i] == names[i + 1]);
        }
        lemma_filled_plain(tail);
        assert(crate::ipc::filled(names) =~= names);
    }
}

proof fn lemma_joined_last(names: Seq<Seq<char>>)
    requires
        names.len() > 0,
        names.last().len() > 0,
    ensures
        crate::text::joined(names, ","@).len() > 0,
        crate::text::joined(names, ","@).last() == names.last().last(),
{
}

/// The list of controllers is read back as it was sent, in order and with
/// nothing lost, the empty list included.
pub proof fn law_controllers_reply_understood(ids: Seq<Seq<char>>)
    requires
        forall|i: int| 0 <= i < ids.len() ==> listable(#[trigger] ids[i]),
    ensures
        crate::ipc::listed(read_back(crate::ipc::controllers_line(ids))) == Ok::<
            Seq<Seq<char>>,
            Seq<char>,
        >(ids),
{
    if ids.len() == 0 {
        reveal_strlit("OK");
        reveal_strlit("OK ");
        lemma_plain_ends("OK"@);
        law_sent_line_read_back("OK"@);
        assert(ids =~= Seq::empty());
    } else {
        law_list_reply_understood(ids);
    }
}

/// A list of names is read back as it was sent, in order and with nothing lost,
/// the empty list included.
pub proof fn law_list_reply_understood(names: Seq<Seq<char>>)
    requires
        forall|i: int| 0 <= i < names.len() ==> listable(#[trigger] names[i]),
    ensures
        crate::ipc::listed(read_back("OK "@ + crate::text::joined(names, ","@))) == Ok::<
            Seq<Seq<char>>,
            Seq<char>,
        >(names),
{
    reveal_strlit("OK ");
    reveal_strlit("OK");
    let body = crate::text::joined(names, ","@);
    let line = "OK "@ + body;
    if names.len() == 0 {
        let s = sent(line);
        lemma_received_whole(line);
        assert(s =~= seq!['O', 'K', ' ', '\n']);
        assert(crate::text::trim_left(s) == s);
        assert(s.drop_last() =~= seq!['O', 'K', ' ']);
        assert(s.drop_last().drop_last() =~= "OK"@);
        assert(crate::text::trim_right("OK"@) == "OK"@);
        assert(crate::text::trim_right(s.drop_last()) == "OK"@);
        assert(crate::text::trimmed(s) == "OK"@);
        assert(names =~= Seq::empty());
    } else {
        assert(listable(names[names.len() - 1]));
        lemma_plain_ends(names.last());
        lemma_joined_last(names);
        lemma_joined_unbroken(names);
        assert(line[0] == 'O');
        assert(line.last() == body.last());
        lemma_plain_ends(line);
        law_sent_line_read_back(line);
        assert(line.skip("OK "@.len() as int) =~= body);
        assert("OK "@.is_prefix_of(line));
        reveal_strlit(",");
        assert(","@ =~= seq![',']);
        assert forall|i: int| 0 <= i < names.len() implies !(#[trigger] names[i]).contains(',') by {
            assert(listable(names[i]));
        }
        crate::text::lemma_split_joined(names, ',');
        lemma_filled_plain(names);
    }
}

proof fn lemma_tokens_space(a: Seq<char>, b: Seq<char>)
    ensures
        crate::text::tokens(a.push(' ') + b) == crate::text::tokens(a) + crate::text::tokens(b),
    decreases a.len(),
{
    let s = a.push(' ') + b;
    if a.len() == 0 {
        assert(s[0] == ' ');
        assert(s.skip(1) =~= b);
        assert(crate::text::tokens(a) + crate::text::tokens(b) =~= crate::text::tokens(b));
    } else if crate::text::is_space(a[0]) {
        assert(s[0] == a[0]);
        assert(s.skip(1) =~= a.skip(1).push(' ') + b);
        lemma_tokens_space(a.skip(1), b);
    } else {
        crate::text::lemma_word_len(a);
        lemma_word_len_space(a, b);
        let n = crate::text::word_len(a) as int;
        assert(s[0] == a[0]);
        assert(s.take(n) =~= a.take(n));
        assert(s.skip(n) =~= a.skip(n).push(' ') + b);
        lemma_tokens_space(a.skip(n), b);
        assert(crate::text::tokens(s) =~= crate::text::tokens(a) + crate::text::tokens(b));
    }
}

proof fn lemma_word_len_space(a: Seq<char>, b: Seq<char>)
    ensures
        crate::text::word_len(a.push(' ') + b) == crate::text::word_len(a),
    decreases a.len(),
{
    let s = a.push(' ') + b;
    if a.len() == 0 {
        assert(s[0] == ' ');
    } else {
        assert(s[0] == a[0]);
        if !crate::text::is_space(a[0]) {
            assert(s.skip(1) =~= a.skip(1).push(' ') + b);
            lemma_word_len_space(a.skip(1), b);
        }
    }
}

/// A text without white space.
pub open spec fn one_word(s: Seq<char>) -> bool {
    forall|i: int| 0 <= i < s.len() ==> !crate::text::is_space(#[trigger] s[i])
}

proof fn lemma_one_word_len(s: Seq<char>)
    requires
        one_word(s),
    ensures
        crate::text::word_len(s) == s.len(),
    decreases s.len(),
{
    if s.len() > 0 {
        assert(!crate::text::is_space(s[0]));
        assert forall|i: int| 0 <= i < s.skip(1).len() implies !crate::text::is_space(
            #[trigger] s.skip(1)[i],
        ) by {
            assert(s.skip(1)[i] == s[i + 1]);
        }
        lemma_one_word_len(s.skip(1));
    }
}

proof fn lemma_one_word_tokens(s: Seq<char>)
    requires
        one_word(s),
        s.len() > 0,
    ensures
        crate::text::tokens(s) == seq![s],
{
    assert(!crate::text::is_space(s[0]));
    lemma_one_word_len(s);
    assert(s.take(s.len() as int) =~= s);
    assert(s.skip(s.len() as int).len() == 0);
    assert(crate::text::tokens(s.skip(s.len() as int)) =~= Seq::empty());
    assert(crate::text::tokens(s) =~= seq![s]);
}

proof fn lemma_assigned_concat(a: Seq<Seq<char>>, b: Seq<Seq<char>>, key: Seq<char>)
    ensures
        crate::ipc::assigned(a + b, key) == (if crate::ipc::assigned(a, key) is Some {
            crate::ipc::assigned(a, key)
        } else {
            crate::ipc::assigned(b, key)
        }),
    decreases a.len(),
{
    if a.len() == 0 {
        assert(a + b =~= b);
    } else {
        assert((a + b)[0] == a[0]);
        assert((a + b).skip(1) =~= a.skip(1) + b);
        lemma_assigned_concat(a.skip(1), b, key);
    }
}

proof fn lemma_assigned_own(key: Seq<char>, value: Seq<char>)
    ensures
        crate::ipc::assigned(seq![key + seq!['='] + value], key) == Some(value),
{
    let word = key + seq!['='] + value;
    assert((key + seq!['=']).is_prefix_of(word));
    assert(word.skip((key.len() + 1) as int) =~= value);
}

proof fn lemma_assigned_other(key: Seq<char>, word: Seq<char>, i: int)
    requires
        0 <= i < key.len(),
        i < word.len(),
        key[i] != word[i],
    ensures
        crate::ipc::assigned(seq![word], key) is None,
{
    let prefix = key + seq!['='];
    if prefix.is_prefix_of(word) {
        assert(prefix[i] == word.take(prefix.len() as int)[i]);
    }
    assert(crate::ipc::assigned(seq![word].skip(1), key) is None);
}

proof fn lemma_decimal_word(n: nat)
    ensures
        one_word(crate::text::decimal(n)),
    decreases n,
{
    if n >= 10 {
        lemma_decimal_word(n / 10);
    }
}

/// The parts of a status reply, each as one text.
spec fn part(key: Seq<char>, value: Seq<char>) -> Seq<char> {
    key + seq!['='] + value
}

/// Whether no later word of a profile name looks like another field.
pub open spec fn undisturbing(name: Seq<char>) -> bool {
    let words = crate::text::tokens("profile="@ + name);
    &&& crate::ipc::assigned(words, "mode"@) is None
    &&& crate::ipc::assigned(words, "connection"@) is None
    &&& crate::ipc::assigned(words, "hidden"@) is None
    &&& crate::ipc::assigned(words, "battery"@) is None
    &&& crate::ipc::assigned(words, "charging"@) is None
}

/// The parts of a status reply after the profile name.
spec fn later_parts(s: StatusSnapshot) -> Seq<Seq<char>> {
    seq![
        part("mode"@, s.output_mode@),
        part("connection"@, s.connection@),
        part("hidden"@, crate::text::bool_text_of(s.hidden)),
        part("battery"@, crate::text::decimal(s.battery_percent as nat)),
        part("charging"@, crate::text::bool_text_of(s.battery_charging)),
    ]
}

/// Some texts with a space between each two, the last at the end.
spec fn spaced(parts: Seq<Seq<char>>) -> Seq<char>
    decreases parts.len(),
{
    if parts.len() == 0 {
        Seq::empty()
    } else if parts.len() == 1 {
        parts[0]
    } else {
        parts[0].push(' ') + spaced(parts.skip(1))
    }
}

proof fn lemma_spaced_tokens(parts: Seq<Seq<char>>)
    requires
        parts.len() > 0,
        forall|i: int| 0 <= i < parts.len() ==> one_word(#[trigger] parts[i]) && parts[i].len() > 0,
    ensures
        crate::text::tokens(spaced(parts)) == parts,
    decreases parts.len(),
{
    assert(one_word(parts[0]));
    lemma_one_word_tokens(parts[0]);
    if parts.len() == 1 {
        assert(parts =~= seq![parts[0]]);
    } else {
        let rest = parts.skip(1);
        assert forall|i: int| 0 <= i < rest.len() implies one_word(#[trigger] rest[i])
            && rest[i].len() > 0 by {
            assert(rest[i] == parts[i + 1]);
        }
        lemma_spaced_tokens(rest);
        lemma_tokens_space(parts[0], spaced(rest));
        assert(parts =~= seq![parts[0]] + rest);
    }
}

proof fn lemma_part_word(key: Seq<char>, value: Seq<char>)
    requires
        one_word(key),
        one_word(value),
    ensures
        one_word(part(key, value)),
        part(key, value).len() > 0,
{
}

proof fn lemma_later_parts_words(s: StatusSnapshot)
    requires
        one_word(s.output_mode@),
        one_word(s.connection@),
    ensures
        forall|i: int|
            0 <= i < 5 ==> one_word(#[trigger] later_parts(s)[i]) && later_parts(s)[i].len() > 0,
{
    reveal_strlit("mode");
    reveal_strlit("connection");
    reveal_strlit("hidden");
    reveal_strlit("battery");
    reveal_strlit("charging");
    reveal_strlit("true");
    reveal_strlit("false");
    lemma_decimal_word(s.battery_percent as nat);
    lemma_part_word("mode"@, s.output_mode@);
    lemma_part_word("connection"@, s.connection@);
    lemma_part_word("hidden"@, crate::text::bool_text_of(s.hidden));
    lemma_part_word("battery"@, crate::text::decimal(s.battery_percent as nat));
    lemma_part_word("charging"@, crate::text::bool_text_of(s.battery_charging));
}

proof fn lemma_spaced_unfold(parts: Seq<Seq<char>>)
    requires
        parts.len() > 1,
    ensures
        spaced(parts) == parts[0] + seq![' '] + spaced(parts.skip(1)),
{
    assert(parts[0].push(' ') =~= parts[0] + seq![' ']);
}

proof fn lemma_spaced_later(s: StatusSnapshot)
    ensures
        spaced(later_parts(s)) == later_parts(s)[0] + seq![' '] + later_parts(s)[1] + seq![' ']
            + later_parts(s)[2] + seq![' '] + later_parts(s)[3] + seq![' '] + later_parts(s)[4],
{
    let p = later_parts(s);
    lemma_spaced_unfold(p);
    lemma_spaced_unfold(p.skip(1));
    lemma_spaced_unfold(p.skip(1).skip(1));
    lemma_spaced_unfold(p.skip(1).skip(1).skip(1));
    assert(spaced(p.skip(1).skip(1).skip(1).skip(1)) == p[4]);
    assert(spaced(p) =~= p[0] + seq![' '] + p[1] + seq![' '] + p[2] + seq![' '] + p[3] + seq![' ']
        + p[4]);
}

proof fn lemma_field_text(text: Seq<char>, key: Seq<char>)
    requires
        text == seq![' '] + key + seq!['='],
    ensures
        forall|value: Seq<char>| #[trigger] (text + value) == seq![' '] + part(key, value),
{
    assert forall|value: Seq<char>| #[trigger] (text + value) == seq![' '] + part(key, value) by {
        assert(text + value =~= seq![' '] + part(key, value));
    }
}

proof fn lemma_status_split(s: StatusSnapshot)
    ensures
        crate::ipc::status_line_of(s) == "OK"@.push(' ') + (("profile="@ + s.profile_name@).push(
            ' ',
        ) + spaced(later_parts(s))),
{
    reveal_strlit("OK profile=");
    reveal_strlit("OK");
    reveal_strlit("profile=");
    lemma_spaced_later(s);
    let p = later_parts(s);
    let head = "OK profile="@ + s.profile_name@;
    lemma_status_fields(s);
    assert(head =~= "OK"@.push(' ') + ("profile="@ + s.profile_name@));
    let tail = p[0] + seq![' '] + p[1] + seq![' '] + p[2] + seq![' '] + p[3] + seq![' '] + p[4];
    assert(crate::ipc::status_line_of(s) =~= head + seq![' '] + tail);
    assert(head + seq![' '] + tail =~= "OK"@.push(' ') + (("profile="@ + s.profile_name@).push(' ')
        + tail));
}

proof fn lemma_status_fields(s: StatusSnapshot)
    ensures
        ({
            let p = later_parts(s);
            crate::ipc::status_line_of(s) == "OK profile="@ + s.profile_name@ + (seq![' '] + p[0])
                + (seq![' '] + p[1]) + (seq![' '] + p[2]) + (seq![' '] + p[3]) + (seq![' '] + p[4])
        }),
{
    reveal_strlit(" mode=");
    reveal_strlit("mode");
    reveal_strlit(" connection=");
    reveal_strlit("connection");
    reveal_strlit(" hidden=");
    reveal_strlit("hidden");
    reveal_strlit(" battery=");
    reveal_strlit("battery");
    reveal_strlit(" charging=");
    reveal_strlit("charging");
    let p = later_parts(s);
    assert(" mode="@ =~= seq![' '] + "mode"@ + seq!['=']);
    assert(" connection="@ =~= seq![' '] + "connection"@ + seq!['=']);
    assert(" hidden="@ =~= seq![' '] + "hidden"@ + seq!['=']);
    assert(" battery="@ =~= seq![' '] + "battery"@ + seq!['=']);
    assert(" charging="@ =~= seq![' '] + "charging"@ + seq!['=']);
    lemma_field_text(" mode="@, "mode"@);
    lemma_field_text(" connection="@, "connection"@);
    lemma_field_text(" hidden="@, "hidden"@);
    lemma_field_text(" battery="@, "battery"@);
    lemma_field_text(" charging="@, "charging"@);
    let hidden = crate::text::bool_text_of(s.hidden);
    let battery = crate::text::decimal(s.battery_percent as nat);
    let charging = crate::text::bool_text_of(s.battery_charging);
    let name = "OK profile="@ + s.profile_name@;
    lemma_regroup(name, " mode="@, s.output_mode@);
    let a = name + (" mode="@ + s.output_mode@);
    lemma_regroup(a, " connection="@, s.connection@);
    let b = a + (" connection="@ + s.connection@);
    lemma_regroup(b, " hidden="@, hidden);
    let c = b + (" hidden="@ + hidden);
    lemma_regroup(c, " battery="@, battery);
    let d = c + (" battery="@ + battery);
    lemma_regroup(d, " charging="@, charging);
}

proof fn lemma_regroup(a: Seq<char>, b: Seq<char>, c: Seq<char>)
    ensures
        a + b + c == a + (b + c),
{
    assert(a + b + c =~= a + (b + c));
}

proof fn lemma_status_tokens(s: StatusSnapshot)
    requires
        one_word(s.output_mode@),
        one_word(s.connection@),
    ensures
        crate::text::tokens(crate::ipc::status_line_of(s)) == seq!["OK"@] + (crate::text::tokens(
            "profile="@ + s.profile_name@,
        ) + later_parts(s)),
        plain(crate::ipc::status_line_of(s)),
{
    let line = crate::ipc::status_line_of(s);
    let p1 = "profile="@ + s.profile_name@;
    let later = spaced(later_parts(s));
    lemma_status_split(s);
    lemma_later_parts_words(s);
    lemma_spaced_tokens(later_parts(s));
    lemma_tokens_space(p1, later);
    lemma_tokens_space("OK"@, p1.push(' ') + later);
    reveal_strlit("OK");
    assert(one_word("OK"@));
    lemma_one_word_tokens("OK"@);
    assert(line[0] == 'O');
    lemma_spaced_later(s);
    assert(one_word(later_parts(s)[4]));
    assert(line.last() == later_parts(s)[4].last());
    lemma_plain_ends(line);
}

/// A status reply is read back field by field: the mode, the connection and
/// the numbers as they were written, and of the profile name its first word,
/// which is the whole name where it has no space. The name may be any text
/// without a line end, none of whose later words looks like another field.
pub proof fn law_status_reply_understood(s: StatusSnapshot)
    requires
        one_word(s.output_mode@),
        one_word(s.connection@),
        undisturbing(s.profile_name@),
        unbroken(s.profile_name@),
    ensures
        ({
            let line = read_back(crate::ipc::status_line_of(s));
            let name = s.profile_name@;
            &&& crate::ipc::status_field(line, "profile"@) == Some(
                name.take(crate::text::word_len(name) as int),
            )
            &&& one_word(name) ==> crate::ipc::status_field(line, "profile"@) == Some(name)
            &&& crate::ipc::status_field(line, "mode"@) == Some(s.output_mode@)
            &&& crate::ipc::status_field(line, "connection"@) == Some(s.connection@)
            &&& crate::ipc::status_field(line, "hidden"@) == Some(
                crate::text::bool_text_of(s.hidden),
            )
            &&& crate::ipc::status_field(line, "battery"@) == Some(
                crate::text::decimal(s.battery_percent as nat),
            )
            &&& crate::ipc::status_field(line, "charging"@) == Some(
                crate::text::bool_text_of(s.battery_charging),
            )
        }),
{
    let line = crate::ipc::status_line_of(s);
    lemma_status_tokens(s);
    lemma_status_unbroken(s);
    law_sent_line_read_back(line);
    lemma_profile_field(s);
    lemma_later_field(s, "mode"@, 0);
    lemma_later_field(s, "connection"@, 1);
    lemma_later_field(s, "hidden"@, 2);
    lemma_later_field(s, "battery"@, 3);
    lemma_later_field(s, "charging"@, 4);
}

proof fn lemma_word_unbroken(s: Seq<char>)
    requires
        one_word(s),
    ensures
        unbroken(s),
{
    assert(crate::text::is_space('\n'));
}

proof fn lemma_status_unbroken(s: StatusSnapshot)
    requires
        one_word(s.output_mode@),
        one_word(s.connection@),
        unbroken(s.profile_name@),
    ensures
        unbroken(crate::ipc::status_line_of(s)),
{
    reveal_strlit("OK profile=");
    let p = later_parts(s);
    lemma_later_parts_words(s);
    lemma_word_unbroken(p[0]);
    lemma_word_unbroken(p[1]);
    lemma_word_unbroken(p[2]);
    lemma_word_unbroken(p[3]);
    lemma_word_unbroken(p[4]);
    lemma_status_fields(s);
    lemma_unbroken_add("OK profile="@, s.profile_name@);
    let a = "OK profile="@ + s.profile_name@;
    lemma_unbroken_part(a, p[0]);
    lemma_unbroken_part(a + (seq![' '] + p[0]), p[1]);
    lemma_unbroken_part(a + (seq![' '] + p[0]) + (seq![' '] + p[1]), p[2]);
    let b = a + (seq![' '] + p[0]) + (seq![' '] + p[1]) + (seq![' '] + p[2]);
    lemma_unbroken_part(b, p[3]);
    lemma_unbroken_part(b + (seq![' '] + p[3]), p[4]);
}

proof fn lemma_unbroken_add(a: Seq<char>, b: Seq<char>)
    requires
        unbroken(a),
        unbroken(b),
    ensures
        unbroken(a + b),
{
}

proof fn lemma_unbroken_part(a: Seq<char>, b: Seq<char>)
    requires
        unbroken(a),
        unbroken(b),
    ensures
        unbroken(a + (seq![' '] + b)),
{
    lemma_unbroken_add(seq![' '], b);
}

/// The reply to a status request tells a running controller from an unknown
/// one: only the first is read as a status.
pub proof fn law_unknown_controller_is_an_error(s: StatusSnapshot, id: Seq<char>)
    ensures
        crate::ipc::is_status(read_back(crate::ipc::status_line_of(s))),
        !crate::ipc::is_status(read_back(crate::ipc::unknown_controller(id))),
{
    reveal_strlit("OK ");
    reveal_strlit("OK profile=");
    reveal_strlit("ERR unknown controller \"");
    let unknown = crate::ipc::unknown_controller(id);
    assert(unknown[0] == 'E');
    lemma_received_first(unknown);
    lemma_trim_keeps_first(received(sent(unknown)));
    let line = crate::ipc::status_line_of(s);
    lemma_status_head(s);
    lemma_received_head(line, 11);
    let read = received(sent(line));
    assert(read[0] == read.take(11)[0] && read[10] == read.take(11)[10]);
    lemma_trim_keeps_head(read, 11);
    let back = read_back(line);
    assert(back.take(11) =~= "OK profile="@);
    assert(back[0] == back.take(11)[0] && back[1] == back.take(11)[1] && back[2] == back.take(
        11,
    )[2]);
    assert("OK "@.is_prefix_of(back)) by {
        assert(back.take(3) =~= "OK "@);
    }
}

proof fn lemma_status_head(s: StatusSnapshot)
    ensures
        crate::ipc::status_line_of(s).len() >= 11,
        crate::ipc::status_line_of(s).take(11) == "OK profile="@,
{
    reveal_strlit("OK profile=");
    lemma_status_fields(s);
    assert(crate::ipc::status_line_of(s).take(11) =~= "OK profile="@);
}

/// What is read of a line keeps a head that has no line end.
proof fn lemma_received_head(line: Seq<char>, n: int)
    requires
        0 <= n <= line.len(),
        unbroken(line.take(n)),
    ensures
        received(sent(line)).len() >= n,
        received(sent(line)).take(n) == line.take(n),
{
    let s = sent(line);
    crate::text::lemma_first_at(s, '\n');
    let at = crate::text::first_at(s, '\n');
    assert(s[line.len() as int] == '\n');
    if at < n {
        assert(line.take(n)[at] == s[at]);
    }
    assert(received(s).take(n) =~= line.take(n));
}

/// Trimming keeps a head that neither starts nor ends in white space.
proof fn lemma_trim_keeps_head(s: Seq<char>, n: int)
    requires
        0 < n <= s.len(),
        !crate::text::is_space(s[0]),
        !crate::text::is_space(s[n - 1]),
    ensures
        crate::text::trimmed(s).len() >= n,
        crate::text::trimmed(s).take(n) == s.take(n),
{
    lemma_trim_right_head(s, n);
}

proof fn lemma_trim_right_head(s: Seq<char>, n: int)
    requires
        0 < n <= s.len(),
        !crate::text::is_space(s[n - 1]),
    ensures
        crate::text::trim_right(s).len() >= n,
        crate::text::trim_right(s).take(n) == s.take(n),
    decreases s.len(),
{
    if crate::text::is_space(s.last()) {
        lemma_trim_right_head(s.drop_last(), n);
        assert(s.drop_last().take(n) =~= s.take(n));
    }
}

proof fn lemma_profile_field(s: StatusSnapshot)
    requires
        one_word(s.output_mode@),
        one_word(s.connection@),
    ensures
        crate::ipc::status_field(crate::ipc::status_line_of(s), "profile"@) == Some(
            s.profile_name@.take(crate::text::word_len(s.profile_name@) as int),
        ),
        one_word(s.profile_name@) ==> s.profile_name@.take(
            crate::text::word_len(s.profile_name@) as int,
        ) == s.profile_name@,
{
    reveal_strlit("profile=");
    reveal_strlit("profile");
    reveal_strlit("OK");
    lemma_status_tokens(s);
    let name = s.profile_name@;
    let p1 = "profile="@ + name;
    let words = crate::text::tokens(p1);
    let n = crate::text::word_len(name) as int;
    crate::text::lemma_word_len(name);
    lemma_word_len_prefix("profile="@, name);
    assert(!crate::text::is_space(p1[0]));
    let first = p1.take(8 + n);
    assert(words[0] == first);
    assert(("profile"@ + seq!['=']).is_prefix_of(first));
    assert(first.skip(8) =~= name.take(n));
    let all = crate::text::tokens(crate::ipc::status_line_of(s));
    assert(all.skip(1)[0] == first);
    lemma_assigned_other("profile"@, "OK"@, 0);
    lemma_assigned_concat(seq!["OK"@], all.skip(1), "profile"@);
    assert(all =~= seq!["OK"@] + all.skip(1));
    if one_word(name) {
        lemma_one_word_len(name);
        assert(name.take(n) =~= name);
    }
}

proof fn lemma_word_len_prefix(head: Seq<char>, tail: Seq<char>)
    requires
        one_word(head),
    ensures
        crate::text::word_len(head + tail) == head.len() + crate::text::word_len(tail),
    decreases head.len(),
{
    if head.len() == 0 {
        assert(head + tail =~= tail);
    } else {
        assert(!crate::text::is_space(head[0]));
        assert forall|i: int| 0 <= i < head.skip(1).len() implies !crate::text::is_space(
            #[trigger] head.skip(1)[i],
        ) by {
            assert(head.skip(1)[i] == head[i + 1]);
        }
        lemma_word_len_prefix(head.skip(1), tail);
        assert((head + tail).skip(1) =~= head.skip(1) + tail);
    }
}

spec fn later_key(i: int) -> Seq<char> {
    if i == 0 {
        "mode"@
    } else if i == 1 {
        "connection"@
    } else if i == 2 {
        "hidden"@
    } else if i == 3 {
        "battery"@
    } else {
        "charging"@
    }
}

spec fn later_value(s: StatusSnapshot, i: int) -> Seq<char> {
    if i == 0 {
        s.output_mode@
    } else if i == 1 {
        s.connection@
    } else if i == 2 {
        crate::text::bool_text_of(s.hidden)
    } else if i == 3 {
        crate::text::decimal(s.battery_percent as nat)
    } else {
        crate::text::bool_text_of(s.battery_charging)
    }
}

proof fn lemma_later_differ(i: int, j: int, value: Seq<char>)
    requires
        0 <= i < 5,
        0 <= j < 5,
        i != j,
    ensures
        crate::ipc::assigned(seq![part(later_key(j), value)], later_key(i)) is None,
{
    reveal_strlit("mode");
    reveal_strlit("connection");
    reveal_strlit("hidden");
    reveal_strlit("battery");
    reveal_strlit("charging");
    let word = part(later_key(j), value);
    assert(word[0] == later_key(j)[0]);
    assert(word[1] == later_key(j)[1]);
    if later_key(i)[0] != word[0] {
        lemma_assigned_other(later_key(i), word, 0);
    } else {
        lemma_assigned_other(later_key(i), word, 1);
    }
}

proof fn lemma_later_parts(s: StatusSnapshot, i: int, from: int)
    requires
        0 <= from <= i < 5,
    ensures
        crate::ipc::assigned(
            Seq::new((5 - from) as nat, |k: int| part(later_key(from + k), later_value(s, from + k))),
            later_key(i),
        ) == Some(later_value(s, i)),
    decreases i - from,
{
    let all = Seq::new(
        (5 - from) as nat,
        |k: int| part(later_key(from + k), later_value(s, from + k)),
    );
    let head = seq![part(later_key(from), later_value(s, from))];
    let tail = Seq::new(
        (4 - from) as nat,
        |k: int| part(later_key(from + 1 + k), later_value(s, from + 1 + k)),
    );
    assert(all =~= head + tail);
    lemma_assigned_concat(head, tail, later_key(i));
    if from == i {
        lemma_assigned_own(later_key(i), later_value(s, i));
    } else {
        lemma_later_differ(i, from, later_value(s, from));
        lemma_later_parts(s, i, from + 1);
        assert(tail =~= Seq::new(
            (5 - (from + 1)) as nat,
            |k: int| part(later_key(from + 1 + k), later_value(s, from + 1 + k)),
        ));
    }
}

proof fn lemma_later_field(s: StatusSnapshot, key: Seq<char>, i: int)
    requires
        one_word(s.output_mode@),
        one_word(s.connection@),
        undisturbing(s.profile_name@),
        0 <= i < 5,
        key == later_key(i),
    ensures
        crate::ipc::status_field(crate::ipc::status_line_of(s), key) == Some(later_value(s, i)),
{
    reveal_strlit("OK");
    reveal_strlit("mode");
    reveal_strlit("connection");
    reveal_strlit("hidden");
    reveal_strlit("battery");
    reveal_strlit("charging");
    lemma_status_tokens(s);
    let words = crate::text::tokens("profile="@ + s.profile_name@);
    let parts = Seq::new(5, |k: int| part(later_key(0 + k), later_value(s, 0 + k)));
    let all = crate::text::tokens(crate::ipc::status_line_of(s));
    assert(all =~= seq!["OK"@] + (words + parts));
    lemma_assigned_other(key, "OK"@, 0);
    lemma_assigned_concat(seq!["OK"@], words + parts, key);
    lemma_assigned_concat(words, parts, key);
    lemma_later_parts(s, i, 0);
}

proof fn lemma_command_of_plain(left: Seq<char>, w: Seq<char>, right: Seq<char>)
    requires
        crate::text::blank(left),
        crate::text::blank(right),
        w.len() > 0,
        !crate::text::is_space(w[0]),
        !crate::text::is_space(w.last()),
        w[0] != 'S',
    ensures
        crate::ipc::command_text(left + w + right) == w,
{
    let line = left + w + right;
    let kept = if right.len() > 0 && right.last() == '\n' {
        right.drop_last()
    } else {
        right
    };
    assert forall|i: int| 0 <= i < kept.len() implies crate::text::is_space(#[trigger] kept[i]) by {
        assert(crate::text::is_space(right[i]));
    }
    assert(crate::text::is_space('\n'));
    if right.len() > 0 {
        assert(line.last() == right.last());
        assert(line.drop_last() =~= left + w + right.drop_last());
    } else {
        assert(line.last() == w.last());
    }
    assert(crate::ipc::without_line_end(line) == left + w + kept);
    crate::text::law_trimming_takes_the_ends(left, w, kept);
    let body = w + kept;
    assert(body[0] == w[0]);
    reveal_strlit("SWITCH_PROFILE ");
    if "SWITCH_PROFILE "@.is_prefix_of(body) {
        assert("SWITCH_PROFILE "@[0] == body[0]);
    }
    let none = Seq::<char>::empty();
    crate::text::law_trimming_takes_the_ends(none, w, kept);
    assert(none + w + kept =~= body);
}

/// The requests without an argument are understood, whatever white space stands
/// around them, and each is taken for what it is.
pub proof fn law_plain_requests_understood(left: Seq<char>, right: Seq<char>)
    requires
        crate::text::blank(left),
        crate::text::blank(right),
    ensures
        crate::ipc::request_in(crate::ipc::command_text(left + "PING"@ + right)) == Request::Ping,
        crate::ipc::request_in(crate::ipc::command_text(left + "LIST_CONTROLLERS"@ + right))
            == Request::ListControllers,
        crate::ipc::request_in(crate::ipc::command_text(left + "LIST_PROFILES"@ + right))
            == Request::ListProfiles,
{
    reveal_strlit("PING");
    reveal_strlit("LIST_CONTROLLERS");
    reveal_strlit("LIST_PROFILES");
    lemma_command_of_plain(left, "PING"@, right);
    lemma_command_of_plain(left, "LIST_CONTROLLERS"@, right);
    lemma_command_of_plain(left, "LIST_PROFILES"@, right);
    assert("PING"@[0] == 'P');
    assert("LIST_CONTROLLERS"@[5] == 'C');
    assert("LIST_PROFILES"@[5] == 'P');
}

/// Whether an answer is a line that reports an error.
pub open spec fn refuses(a: crate::ipc::AnswerText) -> bool {
    a matches crate::ipc::AnswerText::Line(line) && "ERR "@.is_prefix_of(line)
}

/// A running controller is answered for: its own status is reported and a switch
/// is passed on as it was asked for. Any other is refused, and so is a line that
/// asks for nothing.
pub proof fn law_running_controllers_are_answered_for(
    registry: crate::ipc::Registry,
    id: Seq<char>,
    name: Seq<char>,
)
    ensures
        registry.lookup(id) matches Some(s) ==> crate::ipc::answer_to(Request::Status(id), registry)
            == crate::ipc::AnswerText::Line(crate::ipc::status_line_of(s)) && crate::ipc::answer_to(
            Request::SwitchProfile(id, name),
            registry,
        ) == crate::ipc::AnswerText::Switch(id, name),
        registry.lookup(id) is None ==> refuses(
            crate::ipc::answer_to(Request::Status(id), registry),
        ) && refuses(crate::ipc::answer_to(Request::SwitchProfile(id, name), registry)),
        refuses(crate::ipc::answer_to(Request::Unknown, registry)),
        crate::ipc::answer_to(Request::Ping, registry) == crate::ipc::AnswerText::Line("OK PONG"@),
        crate::ipc::answer_to(Request::ListProfiles, registry)
            == crate::ipc::AnswerText::ListProfiles,
{
    reveal_strlit("ERR ");
    reveal_strlit("ERR unknown controller \"");
    reveal_strlit("ERR unknown command");
    let line = crate::ipc::unknown_controller(id);
    assert("ERR "@ =~= line.take("ERR "@.len() as int));
    assert("ERR "@ =~= "ERR unknown command"@.take("ERR "@.len() as int));
}

/// The list of controllers that a client reads names exactly those that run.
pub proof fn law_listed_controllers_run(registry: crate::ipc::Registry, id: Seq<char>)
    requires
        forall|i: int| 0 <= i < registry.id_texts().len() ==> listable(#[trigger] registry.id_texts()[i]),
    ensures
        crate::ipc::answer_to(Request::ListControllers, registry) matches crate::ipc::AnswerText::Line(
            line,
        ) && crate::ipc::listed(read_back(line)) == Ok::<Seq<Seq<char>>, Seq<char>>(
            registry.id_texts(),
        ),
        registry.id_texts().contains(id) <==> registry.lookup(id) is Some,
{
    let ids = registry.id_texts();
    law_controllers_reply_understood(ids);
    if ids.contains(id) {
        let i = choose|i: int| 0 <= i < ids.len() && ids[i] == id;
        assert(registry.named(i, id));
    }
    if registry.has(id) {
        let i = choose|i: int| registry.named(i, id);
        assert(registry.named(i, id));
        assert(ids[i] == id);
    }
}

/// The flags of a status reply are read as they were.
pub proof fn law_status_flags_understood(s: StatusSnapshot)
    requires
        one_word(s.output_mode@),
        one_word(s.connection@),
        undisturbing(s.profile_name@),
        unbroken(s.profile_name@),
    ensures
        crate::tray::flag_in(read_back(crate::ipc::status_line_of(s)), "hidden"@) == s.hidden,
        crate::tray::flag_in(read_back(crate::ipc::status_line_of(s)), "charging"@)
            == s.battery_charging,
{
    law_status_reply_understood(s);
    crate::text::law_truth_is_written_as_its_name(s.hidden);
    crate::text::law_truth_is_written_as_its_name(s.battery_charging);
}

/// A field has the value that the first word assigning to its key gives it; words
/// that assign to other keys do not count.
pub proof fn law_first_assignment_counts(
    key: Seq<char>,
    value: Seq<char>,
    word: Seq<char>,
    rest: Seq<Seq<char>>,
)
    ensures
        crate::ipc::assigned(seq![key + seq!['='] + value] + rest, key) == Some(value),
        !(key + seq!['=']).is_prefix_of(word) ==> crate::ipc::assigned(seq![word] + rest, key)
            == crate::ipc::assigned(rest, key),
        crate::ipc::assigned(Seq::empty(), key) is None,
{
    let first = key + seq!['='] + value;
    let words = seq![first] + rest;
    assert(words[0] == first);
    assert(first.take((key.len() + 1) as int) =~= key + seq!['=']);
    assert(first.skip((key.len() + 1) as int) =~= value);
    let other = seq![word] + rest;
    assert(other[0] == word);
    assert(other.skip(1) =~= rest);
}

/// A part of a list counts without the white space around it, and a blank part does
/// not count.
pub proof fn law_blank_parts_do_not_count(
    left: Seq<char>,
    name: Seq<char>,
    right: Seq<char>,
    rest: Seq<Seq<char>>,
)
    requires
        crate::text::blank(left),
        crate::text::blank(right),
        name.len() > 0,
        !crate::text::is_space(name[0]),
        !crate::text::is_space(name.last()),
    ensures
        crate::ipc::filled(seq![left + name + right] + rest) == seq![name] + crate::ipc::filled(rest),
        crate::ipc::filled(seq![left] + rest) == crate::ipc::filled(rest),
        crate::ipc::filled(Seq::empty()).len() == 0,
{
    crate::text::law_trimming_takes_the_ends(left, name, right);
    crate::text::law_blank_trims_to_nothing(left);
    let a = seq![left + name + right] + rest;
    assert(a.skip(1) =~= rest);
    assert(a[0] == left + name + right);
    let b = seq![left] + rest;
    assert(b.skip(1) =~= rest);
    assert(b[0] == left);
}

/// A request whose argument is blank asks for nothing.
pub proof fn law_blank_arguments_ask_for_nothing(pad: Seq<char>, id: Seq<char>)
    requires
        crate::text::blank(pad),
    ensures
        crate::ipc::status_request_in(pad) == Request::Unknown,
        crate::ipc::switch_request_in(id + seq![' '] + pad) is SwitchProfile ==> id.contains(' '),
        !id.contains(' ') ==> crate::ipc::switch_request_in(id) == Request::Unknown,
{
    crate::text::law_blank_trims_to_nothing(pad);
    let line = id + seq![' '] + pad;
    if !id.contains(' ') {
        crate::text::lemma_first_at_end(id, ' ', pad);
        assert(line.skip(id.len() as int + 1) =~= pad);
    }
}

/// A reply that does not start with `OK` lists nothing and is itself the error; and
/// a failed switch is answered with its cause.
pub proof fn law_other_replies_are_errors(reply: Seq<char>, cause: String)
    ensures
        !"OK"@.is_prefix_of(reply) ==> crate::ipc::listed(reply) == Err::<Seq<Seq<char>>, Seq<char>>(
            reply,
        ),
        crate::ipc::switch_reply_of(SwitchOutcome::Failed(cause)) == "ERR "@ + cause@,
        refuses(crate::ipc::AnswerText::Line(crate::ipc::switch_reply_of(SwitchOutcome::TimedOut))),
        refuses(
            crate::ipc::AnswerText::Line(crate::ipc::switch_reply_of(SwitchOutcome::NotAccepting)),
        ),
{
    reveal_strlit("OK");
    reveal_strlit("OK ");
    reveal_strlit("ERR ");
    reveal_strlit("ERR that controller's thread is not accepting commands (shutting down?)");
    reveal_strlit("ERR timed out waiting for the controller to apply the switch");
    if "OK "@.is_prefix_of(reply) {
        assert("OK"@ =~= reply.take(2)) by {
            assert(reply.take(3)[0] == 'O' && reply.take(3)[1] == 'K');
        }
    }
    if reply == "OK"@ {
        assert("OK"@ =~= reply.take(2));
    }
    let late = crate::ipc::switch_reply_of(SwitchOutcome::TimedOut);
    assert("ERR "@ =~= late.take(4));
    let closed = crate::ipc::switch_reply_of(SwitchOutcome::NotAccepting);
    assert("ERR "@ =~= closed.take(4));
}

} // verus!

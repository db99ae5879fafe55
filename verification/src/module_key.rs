//! Module keys: columns of text, separated by slashes.

use vstd::prelude::*;
use vstd::string::StrSliceExecFns;

verus! {

/// The columns of a module key.  A key of `n` slashes has `n + 1` columns, some
/// of them perhaps empty.
pub open spec fn columns(key: Seq<char>) -> Seq<Seq<char>>
    decreases key.len(),
{
    if key.len() == 0 {
        seq![Seq::empty()]
    } else {
        let before = columns(key.drop_last());
        if key.last() == '/' {
            before.push(Seq::empty())
        } else {
            before.drop_last().push(before.last().push(key.last()))
        }
    }
}

/// The columns put back together, with a slash between each two.
pub open spec fn joined(parts: Seq<Seq<char>>) -> Seq<char>
    decreases parts.len(),
{
    if parts.len() == 0 {
        Seq::empty()
    } else if parts.len() == 1 {
        parts[0]
    } else {
        joined(parts.drop_last()).push('/') + parts.last()
    }
}

/// The key of an alert: `stream_type/stream_name/alert_name`.
#[derive(Debug, PartialEq, Eq)]
pub struct AlertKey {
    pub stream_type: String,
    pub stream_name: String,
    pub alert_name: String,
}

pub struct AlertKeyView {
    pub stream_type: Seq<char>,
    pub stream_name: Seq<char>,
    pub alert_name: Seq<char>,
}

impl View for AlertKey {
    type V = AlertKeyView;

    open spec fn view(&self) -> AlertKeyView {
        AlertKeyView {
            stream_type: self.stream_type@,
            stream_name: self.stream_name@,
            alert_name: self.alert_name@,
        }
    }
}

impl Clone for AlertKey {
    fn clone(&self) -> (copy: Self)
        ensures
            copy@ == self@,
    {
        AlertKey {
            stream_type: self.stream_type.clone(),
            stream_name: self.stream_name.clone(),
            alert_name: self.alert_name.clone(),
        }
    }
}

/// The key of a derived stream: `stream_type/stream_name/pipeline_name/derived_stream_name`.
#[derive(Debug, PartialEq, Eq)]
pub struct DerivedStreamKey {
    pub stream_type: String,
    pub stream_name: String,
    pub pipeline_name: String,
    pub name: String,
}

pub struct DerivedStreamKeyView {
    pub stream_type: Seq<char>,
    pub stream_name: Seq<char>,
    pub pipeline_name: Seq<char>,
    pub name: Seq<char>,
}

impl View for DerivedStreamKey {
    type V = DerivedStreamKeyView;

    open spec fn view(&self) -> DerivedStreamKeyView {
        DerivedStreamKeyView {
            stream_type: self.stream_type@,
            stream_name: self.stream_name@,
            pipeline_name: self.pipeline_name@,
            name: self.name@,
        }
    }
}

impl Clone for DerivedStreamKey {
    fn clone(&self) -> (copy: Self)
        ensures
            copy@ == self@,
    {
        DerivedStreamKey {
            stream_type: self.stream_type.clone(),
            stream_name: self.stream_name.clone(),
            pipeline_name: self.pipeline_name.clone(),
            name: self.name.clone(),
        }
    }
}

/// The alert that a module key names: a key of three columns.
pub open spec fn alert_key_of(key: Seq<char>) -> Option<AlertKeyView> {
    let parts = columns(key);
    if parts.len() == 3 {
        Some(
            AlertKeyView { stream_type: parts[0], stream_name: parts[1], alert_name: parts[2] },
        )
    } else {
        None
    }
}

/// The derived stream that a module key names: a key of four columns.
pub open spec fn derived_stream_key_of(key: Seq<char>) -> Option<DerivedStreamKeyView> {
    let parts = columns(key);
    if parts.len() == 4 {
        Some(
            DerivedStreamKeyView {
                stream_type: parts[0],
                stream_name: parts[1],
                pipeline_name: parts[2],
                name: parts[3],
            },
        )
    } else {
        None
    }
}

/// The texts of a vector of strings.
pub open spec fn texts(strings: Seq<String>) -> Seq<Seq<char>> {
    strings.map_values(|string: String| string@)
}

/// Splits a module key into its columns.
pub fn split_key(key: &str) -> (parts: Vec<String>)
    ensures
        texts(parts@) == columns(key@),
{
    let length: usize = key.unicode_len();
    let mut parts: Vec<String> = Vec::new();
    let mut start: usize = 0;
    let mut at: usize = 0;
    proof {
        assert(key@.subrange(0, 0) =~= Seq::<char>::empty());
        assert(texts(parts@).push(key@.subrange(0, 0)) =~= columns(key@.take(0)));
    }
    for letter in letters: key.chars()
        invariant
            length == key@.len(),
            letters.seq() == key@,
            at == letters.index(),
            start <= at <= length,
            texts(parts@).push(key@.subrange(start as int, at as int)) == columns(
                key@.take(at as int),
            ),
    {
        let ghost before = texts(parts@);
        let ghost cut = start as int;
        proof {
            assert(key@.take(at + 1).drop_last() =~= key@.take(at as int));
            assert(before.push(key@.subrange(start as int, at as int)).drop_last() =~= before);
        }
        if letter == '/' {
            let part = key.substring_char(start, at).to_owned();
            parts.push(part);
            start = at + 1;
            proof {
                assert(texts(parts@) =~= before.push(key@.subrange(cut, at as int)));
                assert(key@.subrange(start as int, at + 1) =~= Seq::<char>::empty());
            }
        } else {
            proof {
                assert(key@.subrange(start as int, at + 1) =~= key@.subrange(
                    start as int,
                    at as int,
                ).push(letter));
            }
        }
        at = at + 1;
    }
    let part = key.substring_char(start, length).to_owned();
    let ghost before = texts(parts@);
    parts.push(part);
    proof {
        assert(texts(parts@) =~= before.push(part@));
        assert(key@.take(length as int) =~= key@);
    }
    parts
}

/// The alert that a module key names, or `None` where the key does not have
/// three columns.
pub fn alert_key(key: &str) -> (named: Option<AlertKey>)
    ensures
        named matches Some(named) ==> alert_key_of(key@) == Some(named@),
        named is None ==> alert_key_of(key@) is None,
{
    let mut parts = split_key(key);
    assert(texts(parts@).len() == parts@.len());
    if parts.len() != 3 {
        return None;
    }
    let ghost all = parts@;
    assert(forall|i: int| 0 <= i < 3 ==> texts(all)[i] == (#[trigger] all[i])@);
    let alert_name = parts.remove(2);
    let stream_name = parts.remove(1);
    let stream_type = parts.remove(0);
    Some(AlertKey { stream_type, stream_name, alert_name })
}

/// The derived stream that a module key names, or `None` where the key does not
/// have four columns.
pub fn derived_stream_key(key: &str) -> (named: Option<DerivedStreamKey>)
    ensures
        named matches Some(named) ==> derived_stream_key_of(key@) == Some(named@),
        named is None ==> derived_stream_key_of(key@) is None,
{
    let mut parts = split_key(key);
    assert(texts(parts@).len() == parts@.len());
    if parts.len() != 4 {
        return None;
    }
    let ghost all = parts@;
    assert(forall|i: int| 0 <= i < 4 ==> texts(all)[i] == (#[trigger] all[i])@);
    let name = parts.remove(3);
    let pipeline_name = parts.remove(2);
    let stream_name = parts.remove(1);
    let stream_type = parts.remove(0);
    Some(DerivedStreamKey { stream_type, stream_name, pipeline_name, name })
}

/// Splitting loses nothing: a key has at least one column, no column holds a
/// slash, and the columns joined by slashes are the key again.
pub proof fn law_columns_join_to_key(key: Seq<char>)
    ensures
        columns(key).len() >= 1,
        forall|i: int| 0 <= i < columns(key).len() ==> !(#[trigger] columns(key)[i]).contains('/'),
        joined(columns(key)) == key,
    decreases key.len(),
{
    let parts = columns(key);
    if key.len() == 0 {
        assert(joined(parts) =~= key);
    } else {
        law_columns_join_to_key(key.drop_last());
        let before = columns(key.drop_last());
        if key.last() == '/' {
            assert(parts.drop_last() =~= before);
            assert(joined(parts) =~= key);
        } else {
            let last = before.last().push(key.last());
            assert(parts.drop_last() =~= before.drop_last());
            assert(!before[before.len() - 1].contains('/'));
            assert(!last.contains('/')) by {
                if last.contains('/') {
                    let i = choose|i: int| 0 <= i < last.len() && last[i] == '/';
                    assert(before.last()[i] == '/');
                }
            }
            assert forall|i: int| 0 <= i < parts.len() implies !(#[trigger] parts[i]).contains(
                '/',
            ) by {
                if i < parts.len() - 1 {
                    assert(parts[i] == before[i]);
                }
            }
            assert(joined(parts) =~= joined(before).push(key.last()));
            assert(joined(parts) =~= key);
        }
    }
}

/// A key is split in one way only: columns without a slash, joined by slashes,
/// are the columns of what they join to.
pub proof fn law_joined_splits_back(parts: Seq<Seq<char>>)
    requires
        parts.len() >= 1,
        forall|i: int| 0 <= i < parts.len() ==> !(#[trigger] parts[i]).contains('/'),
    ensures
        columns(joined(parts)) == parts,
    decreases parts.len(), parts.last().len(),
{
    let last = parts.last();
    let front = parts.drop_last();
    let key = joined(parts);
    if last.len() == 0 {
        assert(last =~= Seq::<char>::empty());
        if parts.len() == 1 {
            assert(parts =~= seq![Seq::empty()]);
        } else {
            assert(key =~= joined(front).push('/'));
            assert(key.drop_last() =~= joined(front));
            assert forall|i: int| 0 <= i < front.len() implies !(#[trigger] front[i]).contains(
                '/',
            ) by {
                assert(front[i] == parts[i]);
            }
            law_joined_splits_back(front);
            assert(columns(key) =~= parts);
        }
    } else {
        let shorter = front.push(last.drop_last());
        assert(shorter.drop_last() =~= front);
        assert forall|i: int| 0 <= i < shorter.len() implies !(#[trigger] shorter[i]).contains(
            '/',
        ) by {
            assert(!parts[i].contains('/'));
            if i == shorter.len() - 1 && shorter[i].contains('/') {
                let j = choose|j: int| 0 <= j < shorter[i].len() && shorter[i][j] == '/';
                assert(parts[i][j] == '/');
            }
        }
        law_joined_splits_back(shorter);
        assert(key.drop_last() =~= joined(shorter));
        assert(key.last() == last.last());
        assert(last.last() != '/') by {
            assert(!parts[parts.len() - 1].contains('/'));
            assert(last[last.len() - 1] == last.last());
        }
        assert(last.drop_last().push(last.last()) =~= last);
        assert(columns(key) =~= parts);
    }
}

/// Columns are joined by one slash between each two.
pub proof fn law_columns_are_joined_by_slashes(parts: Seq<Seq<char>>, last: Seq<char>)
    requires
        parts.len() >= 1,
    ensures
        joined(seq![last]) == last,
        joined(parts.push(last)) == joined(parts) + seq!['/'] + last,
{
    assert(parts.push(last).drop_last() =~= parts);
    assert(joined(parts).push('/') =~= joined(parts) + seq!['/']);
}

/// How many slashes a text holds.
pub open spec fn slashes(text: Seq<char>) -> nat
    decreases text.len(),
{
    if text.len() == 0 {
        0
    } else {
        slashes(text.drop_last()) + if text.last() == '/' {
            1nat
        } else {
            0
        }
    }
}

/// A key has one column more than it has slashes.
pub proof fn law_slashes_make_columns(key: Seq<char>)
    ensures
        columns(key).len() == slashes(key) + 1,
    decreases key.len(),
{
    if key.len() > 0 {
        law_slashes_make_columns(key.drop_last());
    }
}

/// The strings of a vector are its texts, in their order.
pub proof fn law_texts_are_the_strings(strings: Seq<String>, i: int)
    requires
        0 <= i < strings.len(),
    ensures
        texts(strings).len() == strings.len(),
        texts(strings)[i] == strings[i]@,
{
}

/// Three texts without a slash, with a slash between each two, name the alert
/// of those three columns, and no derived stream.
pub proof fn law_three_columns_name_an_alert(key: AlertKeyView)
    requires
        !key.stream_type.contains('/'),
        !key.stream_name.contains('/'),
        !key.alert_name.contains('/'),
    ensures
        alert_key_of(
            key.stream_type + seq!['/'] + key.stream_name + seq!['/'] + key.alert_name,
        ) == Some(key),
        derived_stream_key_of(
            key.stream_type + seq!['/'] + key.stream_name + seq!['/'] + key.alert_name,
        ) is None,
{
    let parts = seq![key.stream_type, key.stream_name, key.alert_name];
    let two = seq![key.stream_type, key.stream_name];
    let one = seq![key.stream_type];
    assert(parts =~= two.push(key.alert_name));
    assert(two =~= one.push(key.stream_name));
    law_columns_are_joined_by_slashes(two, key.alert_name);
    law_columns_are_joined_by_slashes(one, key.stream_name);
    law_columns_are_joined_by_slashes(one, key.stream_type);
    law_joined_splits_back(parts);
}

/// A key that names an alert is made of the three columns that it names, and
/// none of them holds a slash.  A key names one if and only if it holds two
/// slashes.
pub proof fn law_alert_key_is_made_of_its_columns(key: Seq<char>)
    ensures
        alert_key_of(key) is Some <==> slashes(key) == 2,
        alert_key_of(key) matches Some(named) ==> {
            &&& key == named.stream_type + seq!['/'] + named.stream_name + seq!['/']
                + named.alert_name
            &&& !named.stream_type.contains('/')
            &&& !named.stream_name.contains('/')
            &&& !named.alert_name.contains('/')
        },
{
    law_slashes_make_columns(key);
    law_columns_join_to_key(key);
    let parts = columns(key);
    if parts.len() == 3 {
        let two = seq![parts[0], parts[1]];
        let one = seq![parts[0]];
        assert(parts =~= two.push(parts[2]));
        assert(two =~= one.push(parts[1]));
        law_columns_are_joined_by_slashes(two, parts[2]);
        law_columns_are_joined_by_slashes(one, parts[1]);
        law_columns_are_joined_by_slashes(one, parts[0]);
    }
}

/// Four texts without a slash, with a slash between each two, name the derived
/// stream of those four columns, and no alert.
pub proof fn law_four_columns_name_a_derived_stream(key: DerivedStreamKeyView)
    requires
        !key.stream_type.contains('/'),
        !key.stream_name.contains('/'),
        !key.pipeline_name.contains('/'),
        !key.name.contains('/'),
    ensures
        derived_stream_key_of(
            key.stream_type + seq!['/'] + key.stream_name + seq!['/'] + key.pipeline_name
                + seq!['/'] + key.name,
        ) == Some(key),
        alert_key_of(
            key.stream_type + seq!['/'] + key.stream_name + seq!['/'] + key.pipeline_name
                + seq!['/'] + key.name,
        ) is None,
{
    let parts = seq![key.stream_type, key.stream_name, key.pipeline_name, key.name];
    let three = seq![key.stream_type, key.stream_name, key.pipeline_name];
    let two = seq![key.stream_type, key.stream_name];
    let one = seq![key.stream_type];
    assert(parts =~= three.push(key.name));
    assert(three =~= two.push(key.pipeline_name));
    assert(two =~= one.push(key.stream_name));
    law_columns_are_joined_by_slashes(three, key.name);
    law_columns_are_joined_by_slashes(two, key.pipeline_name);
    law_columns_are_joined_by_slashes(one, key.stream_name);
    law_columns_are_joined_by_slashes(one, key.stream_type);
    law_joined_splits_back(parts);
}

/// A key that names a derived stream is made of the four columns that it names,
/// and none of them holds a slash.  A key names one if and only if it holds
/// three slashes.
pub proof fn law_derived_stream_key_is_made_of_its_columns(key: Seq<char>)
    ensures
        derived_stream_key_of(key) is Some <==> slashes(key) == 3,
        derived_stream_key_of(key) matches Some(named) ==> {
            &&& key == named.stream_type + seq!['/'] + named.stream_name + seq!['/']
                + named.pipeline_name + seq!['/'] + named.name
            &&& !named.stream_type.contains('/')
            &&& !named.stream_name.contains('/')
            &&& !named.pipeline_name.contains('/')
            &&& !named.name.contains('/')
        },
{
    law_slashes_make_columns(key);
    law_columns_join_to_key(key);
    let parts = columns(key);
    if parts.len() == 4 {
        let three = seq![parts[0], parts[1], parts[2]];
        let two = seq![parts[0], parts[1]];
        let one = seq![parts[0]];
        assert(parts =~= three.push(parts[3]));
        assert(three =~= two.push(parts[2]));
        assert(two =~= one.push(parts[1]));
        law_columns_are_joined_by_slashes(three, parts[3]);
        law_columns_are_joined_by_slashes(two, parts[2]);
        law_columns_are_joined_by_slashes(one, parts[1]);
        law_columns_are_joined_by_slashes(one, parts[0]);
    }
}

/// The view of a key holds each of its columns.
pub proof fn law_key_view_is_faithful(alert: AlertKey, derived_stream: DerivedStreamKey)
    ensures
        alert@.stream_type == alert.stream_type@,
        alert@.stream_name == alert.stream_name@,
        alert@.alert_name == alert.alert_name@,
        derived_stream@.stream_type == derived_stream.stream_type@,
        derived_stream@.stream_name == derived_stream.stream_name@,
        derived_stream@.pipeline_name == derived_stream.pipeline_name@,
        derived_stream@.name == derived_stream.name@,
{
}

} // verus!

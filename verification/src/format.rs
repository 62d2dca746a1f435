//! Turning an inbound report and a configuration into the outbound
//! notification payload: title, message body, and priority.

use vstd::prelude::*;
use crate::model::{Config, FormatError, GotifyPayload, InboundReport};
use crate::numfmt::{configured_priority, dec_str, parse_priority, u64_to_string};
use crate::split::{split_commas, split_on};

verus! {

/// Whether a result value is one of the three the relay recognizes.
pub open spec fn recognized(parsed: Seq<char>) -> bool {
    parsed == "Success"@ || parsed == "Warning"@ || parsed == "Error"@
}

/// The built-in title prefix for a recognized result value.
pub open spec fn default_title_prefix(parsed: Seq<char>) -> Seq<char> {
    if parsed == "Success"@ {
        "💾🟢 Duplicati "@
    } else if parsed == "Warning"@ {
        "💾🟡 Duplicati "@
    } else {
        "💾🔴 Duplicati "@
    }
}

/// The title replacement configured for a result value, if any.
pub open spec fn title_override(parsed: Seq<char>, c: Config) -> Option<String> {
    if parsed == "Success"@ {
        c.success_message
    } else if parsed == "Warning"@ {
        c.warning_message
    } else {
        c.error_message
    }
}

/// The notification title: the configured replacement for the report's
/// result when one is set, and otherwise the built-in prefix followed by
/// the operation name and the backup name. Meaningful when the result is
/// recognized.
pub open spec fn spec_title(r: InboundReport, c: Config) -> Seq<char> {
    match title_override(r.parsed_result@, c) {
        Some(t) => t@,
        None => default_title_prefix(r.parsed_result@) + r.operation_name@ + ": "@
            + r.backup_name@,
    }
}

/// Whether `k` is one of the ten known message field keys.
pub open spec fn known_key(k: Seq<char>) -> bool {
    ||| k == "machine_name"@
    ||| k == "deleted_files"@
    ||| k == "added_files"@
    ||| k == "examined_files"@
    ||| k == "size_of_added_files"@
    ||| k == "main_operation"@
    ||| k == "parsed_result"@
    ||| k == "duration"@
    ||| k == "operation_name"@
    ||| k == "backup_name"@
}

/// The one message line produced for the key `k`: a fixed label and the
/// report's value of the field, or a literal "Unknown Item" line for a key
/// outside the known set.
pub open spec fn line_for(k: Seq<char>, r: InboundReport) -> Seq<char> {
    if k == "machine_name"@ {
        "Machine Name: "@ + r.machine_name@ + "\n"@
    } else if k == "deleted_files"@ {
        "Deleted Files: "@ + dec_str(r.deleted_files as nat) + "\n"@
    } else if k == "added_files"@ {
        "Added Files: "@ + dec_str(r.added_files as nat) + "\n"@
    } else if k == "examined_files"@ {
        "Examined Files: "@ + dec_str(r.examined_files as nat) + "\n"@
    } else if k == "size_of_added_files"@ {
        "Size of Added Files: "@ + dec_str(r.size_of_added_files as nat) + "\n"@
    } else if k == "main_operation"@ {
        "Main Operation: "@ + r.main_operation@ + "\n"@
    } else if k == "parsed_result"@ {
        "Parsed Result: "@ + r.parsed_result@ + "\n"@
    } else if k == "duration"@ {
        "Duration: "@ + r.duration@ + "\n"@
    } else if k == "operation_name"@ {
        "Operation Name: "@ + r.operation_name@ + "\n"@
    } else if k == "backup_name"@ {
        "Backup Name: "@ + r.backup_name@ + "\n"@
    } else {
        "Unknown Item: "@ + k + "\n"@
    }
}

/// The message body for an ordered key list: one line per key, in the
/// list's order, duplicates and unknown keys included.
pub open spec fn message_of(keys: Seq<Seq<char>>, r: InboundReport) -> Seq<char>
    decreases keys.len(),
{
    if keys.len() == 0 {
        Seq::<char>::empty()
    } else {
        message_of(keys.drop_last(), r) + line_for(keys.last(), r)
    }
}

/// The built-in key list used when none is configured.
pub open spec fn default_message_items() -> Seq<char> {
    "backup_name,machine_name,operation_name,deleted_files,added_files,examined_files,size_of_added_files,main_operation,parsed_result,duration"@
}

/// The key list a configuration selects: the configured one, or the
/// built-in default.
pub open spec fn spec_message_items(c: Config) -> Seq<char> {
    match c.message_items {
        Some(s) => s@,
        None => default_message_items(),
    }
}

/// The whole message body a configuration and a report produce.
pub open spec fn spec_message(r: InboundReport, c: Config) -> Seq<char> {
    message_of(split_on(spec_message_items(c), ','), r)
}

/// The priority a configuration selects.
pub open spec fn spec_priority(c: Config) -> int {
    configured_priority(c.priority)
}

fn str_eq(a: &str, b: &str) -> (r: bool)
    ensures
        r == (a@ == b@),
{
    let sa = String::from_str(a);
    let sb = String::from_str(b);
    sa == sb
}

fn default_title_build(prefix: &str, r: &InboundReport) -> (t: String)
    ensures
        t@ == prefix@ + r.operation_name@ + ": "@ + r.backup_name@,
{
    let mut t = String::from_str(prefix);
    t.append(r.operation_name.as_str());
    t.append(": ");
    t.append(r.backup_name.as_str());
    proof {
        assert(t@ =~= prefix@ + r.operation_name@ + ": "@ + r.backup_name@);
    }
    t
}

/// Builds the notification title, or fails when the report's result is
/// none of the recognized values.
pub fn build_title(r: &InboundReport, c: &Config) -> (res: Result<String, FormatError>)
    ensures
        res is Ok <==> recognized(r.parsed_result@),
        res matches Ok(t) ==> t@ == spec_title(*r, *c),
        res matches Err(e) ==> e == FormatError::UnrecognizedResult,
{
    if str_eq(r.parsed_result.as_str(), "Success") {
        match &c.success_message {
            Some(t) => Ok(t.clone()),
            None => Ok(default_title_build("💾🟢 Duplicati ", r)),
        }
    } else if str_eq(r.parsed_result.as_str(), "Warning") {
        match &c.warning_message {
            Some(t) => Ok(t.clone()),
            None => Ok(default_title_build("💾🟡 Duplicati ", r)),
        }
    } else if str_eq(r.parsed_result.as_str(), "Error") {
        match &c.error_message {
            Some(t) => Ok(t.clone()),
            None => Ok(default_title_build("💾🔴 Duplicati ", r)),
        }
    } else {
        Err(FormatError::UnrecognizedResult)
    }
}

fn append_line(m: &mut String, item: &String, r: &InboundReport)
    ensures
        final(m)@ == old(m)@ + line_for(item@, *r),
{
    if str_eq(item.as_str(), "machine_name") {
        m.append("Machine Name: ");
        m.append(r.machine_name.as_str());
        m.append("\n");
        proof {
            assert(m@ =~= old(m)@ + line_for(item@, *r));
        }
    } else if str_eq(item.as_str(), "deleted_files") {
        m.append("Deleted Files: ");
        let v = u64_to_string(r.deleted_files);
        m.append(v.as_str());
        m.append("\n");
        proof {
            assert(m@ =~= old(m)@ + line_for(item@, *r));
        }
    } else if str_eq(item.as_str(), "added_files") {
        m.append("Added Files: ");
        let v = u64_to_string(r.added_files);
        m.append(v.as_str());
        m.append("\n");
        proof {
            assert(m@ =~= old(m)@ + line_for(item@, *r));
        }
    } else if str_eq(item.as_str(), "examined_files") {
        m.append("Examined Files: ");
        let v = u64_to_string(r.examined_files);
        m.append(v.as_str());
        m.append("\n");
        proof {
            assert(m@ =~= old(m)@ + line_for(item@, *r));
        }
    } else if str_eq(item.as_str(), "size_of_added_files") {
        m.append("Size of Added Files: ");
        let v = u64_to_string(r.size_of_added_files);
        m.append(v.as_str());
        m.append("\n");
        proof {
            assert(m@ =~= old(m)@ + line_for(item@, *r));
        }
    } else if str_eq(item.as_str(), "main_operation") {
        m.append("Main Operation: ");
        m.append(r.main_operation.as_str());
        m.append("\n");
        proof {
            assert(m@ =~= old(m)@ + line_for(item@, *r));
        }
    } else if str_eq(item.as_str(), "parsed_result") {
        m.append("Parsed Result: ");
        m.append(r.parsed_result.as_str());
        m.append("\n");
        proof {
            assert(m@ =~= old(m)@ + line_for(item@, *r));
        }
    } else if str_eq(item.as_str(), "duration") {
        m.append("Duration: ");
        m.append(r.duration.as_str());
        m.append("\n");
        proof {
            assert(m@ =~= old(m)@ + line_for(item@, *r));
        }
    } else if str_eq(item.as_str(), "operation_name") {
        m.append("Operation Name: ");
        m.append(r.operation_name.as_str());
        m.append("\n");
        proof {
            assert(m@ =~= old(m)@ + line_for(item@, *r));
        }
    } else if str_eq(item.as_str(), "backup_name") {
        m.append("Backup Name: ");
        m.append(r.backup_name.as_str());
        m.append("\n");
        proof {
            assert(m@ =~= old(m)@ + line_for(item@, *r));
        }
    } else {
        m.append("Unknown Item: ");
        m.append(item.as_str());
        m.append("\n");
        proof {
            assert(m@ =~= old(m)@ + line_for(item@, *r));
        }
    }
}

/// Builds the message body for the given ordered key list.
pub fn build_message(items: &Vec<String>, r: &InboundReport) -> (m: String)
    ensures
        m@ == message_of(items.deep_view(), *r),
{
    let mut m = String::new();
    let mut k: usize = 0;
    while k < items.len()
        invariant
            k <= items.len(),
            m@ == message_of(items.deep_view().take(k as int), *r),
        decreases items.len() - k,
    {
        let item = &items[k];
        append_line(&mut m, item, r);
        proof {
            assert(items.deep_view().take(k + 1).drop_last() =~~= items.deep_view().take(
                k as int,
            ));
            assert(items.deep_view().take(k + 1).last() == item@);
        }
        k = k + 1;
    }
    proof {
        assert(items.deep_view().take(items.len() as int) =~~= items.deep_view());
    }
    m
}

/// Builds the whole outbound payload from a report and a configuration,
/// or fails when the report's result is none of the recognized values.
pub fn construct_gotify_payload(r: &InboundReport, c: &Config) -> (res: Result<
    GotifyPayload,
    FormatError,
>)
    ensures
        res is Ok <==> recognized(r.parsed_result@),
        res matches Ok(p) ==> p.title@ == spec_title(*r, *c) && p.message@ == spec_message(
            *r,
            *c,
        ) && p.priority as int == spec_priority(*c),
        res matches Err(e) ==> e == FormatError::UnrecognizedResult,
{
    let title = match build_title(r, c) {
        Ok(t) => t,
        Err(e) => {
            return Err(e);
        },
    };
    let items_str: &str = match &c.message_items {
        Some(s) => s.as_str(),
        None => "backup_name,machine_name,operation_name,deleted_files,added_files,examined_files,size_of_added_files,main_operation,parsed_result,duration",
    };
    let items = split_commas(items_str);
    let message = build_message(&items, r);
    let priority: i32 = match &c.priority {
        Some(p) => parse_priority(p.as_str()),
        None => 10,
    };
    Ok(GotifyPayload { title, message, priority })
}

/// Under the default title configuration, the title of every recognized
/// result is its built-in prefix followed by the operation name, a colon
/// and a space, and the backup name.
pub proof fn lemma_default_title_shape(r: InboundReport, c: Config)
    requires
        recognized(r.parsed_result@),
        c.success_message is None,
        c.warning_message is None,
        c.error_message is None,
    ensures
        spec_title(r, c) == default_title_prefix(r.parsed_result@) + r.operation_name@ + ": "@
            + r.backup_name@,
{
}

/// A configured title replaces the built-in title whole, for every
/// recognized result.
pub proof fn lemma_title_override(r: InboundReport, c: Config, t: String)
    requires
        recognized(r.parsed_result@),
        title_override(r.parsed_result@, c) == Some(t),
    ensures
        spec_title(r, c) == t@,
{
}

/// The message body decomposes at every position of the key list: what
/// stands before key `i` is the body of the keys before it, then comes the
/// line for key `i` itself, then the body of the keys after it. So each
/// key yields its line exactly once, in the configured order.
pub proof fn lemma_message_of_split(keys: Seq<Seq<char>>, r: InboundReport, i: int)
    requires
        0 <= i < keys.len(),
    ensures
        message_of(keys, r) == message_of(keys.take(i), r) + line_for(keys[i], r) + message_of(
            keys.skip(i + 1),
            r,
        ),
    decreases keys.len(),
{
    if i == keys.len() - 1 {
        assert(keys.drop_last() =~~= keys.take(i));
        assert(keys.skip(i + 1) =~~= Seq::<Seq<char>>::empty());
        assert(message_of(keys, r) =~= message_of(keys.take(i), r) + line_for(keys[i], r)
            + message_of(keys.skip(i + 1), r));
    } else {
        lemma_message_of_split(keys.drop_last(), r, i);
        assert(keys.drop_last().take(i) =~~= keys.take(i));
        assert(keys.drop_last()[i] == keys[i]);
        assert(keys.drop_last().skip(i + 1) =~~= keys.skip(i + 1).drop_last());
        assert(keys.skip(i + 1).len() > 0);
        assert(keys.skip(i + 1).last() == keys.last());
        assert(message_of(keys.skip(i + 1), r) == message_of(keys.drop_last().skip(i + 1), r)
            + line_for(keys.last(), r));
        assert(message_of(keys, r) =~= message_of(keys.take(i), r) + line_for(keys[i], r)
            + message_of(keys.skip(i + 1), r));
    }
}

/// A key outside the known set yields a literal "Unknown Item" line at its
/// own position in the message body.
pub proof fn lemma_unknown_key_line(keys: Seq<Seq<char>>, r: InboundReport, i: int)
    requires
        0 <= i < keys.len(),
        !known_key(keys[i]),
    ensures
        message_of(keys, r) == message_of(keys.take(i), r) + ("Unknown Item: "@ + keys[i] + "\n"@)
            + message_of(keys.skip(i + 1), r),
{
    lemma_message_of_split(keys, r, i);
}

/// The priority falls back to 10 whenever the option is unset or its
/// string denotes no integer.
pub proof fn lemma_priority_default(c: Config)
    requires
        match c.priority {
            Some(s) => crate::numfmt::spec_parse_int(s@) is None,
            None => true,
        },
    ensures
        spec_priority(c) == 10,
{
}

} // verus!

//! The texts of the settings screen.

use vstd::prelude::*;
use vstd::string::StringExecFns;
use crate::config::keybinds::texts_view;
use crate::decimal::{decimal_text, push_decimal};
use crate::disk_cache::listing::CacheStats;
use crate::health::{usage_percent, usage_percent_of};
use crate::protocol::{protocol_name_of, ProtocolKind};

verus! {

/// The modifiers of a binding as they are written before its key: each
/// followed by a plus sign.
pub open spec fn modifiers_text(modifiers: Seq<Seq<char>>) -> Seq<char>
    decreases modifiers.len(),
{
    if modifiers.len() == 0 {
        Seq::empty()
    } else {
        modifiers_text(modifiers.drop_last()) + modifiers.last() + "+"@
    }
}

/// The modifiers of a binding as they are written before its key.
pub fn format_modifiers(modifiers: &Vec<String>) -> (text: String)
    ensures
        text@ == modifiers_text(texts_view(modifiers@)),
{
    let ghost views = texts_view(modifiers@);
    let mut text = String::new();
    let mut i: usize = 0;
    assert(text@ == modifiers_text(views.take(0)));
    while i < modifiers.len()
        invariant
            i <= modifiers.len(),
            views == texts_view(modifiers@),
            text@ == modifiers_text(views.take(i as int)),
        decreases modifiers.len() - i,
    {
        proof {
            assert(views.take(i + 1).drop_last() == views.take(i as int));
            assert(views.take(i + 1).last() == modifiers@[i as int]@);
        }
        text.append(modifiers[i].as_str());
        text.append("+");
        i += 1;
    }
    assert(views.take(modifiers.len() as int) == views);
    text
}

/// What the settings screen says of the protocol in use.
pub open spec fn protocol_status_text(kind: ProtocolKind) -> Seq<char> {
    if kind != ProtocolKind::Halfblocks {
        "✓ "@ + protocol_name_of(kind)
    } else {
        "✗ "@ + protocol_name_of(kind) + " (fallback only)"@
    }
}

/// What the settings screen says of the protocol in use.
pub fn protocol_status(supported: bool, name: &str) -> (text: String)
    ensures
        text@ == if supported {
            "✓ "@ + name@
        } else {
            "✗ "@ + name@ + " (fallback only)"@
        },
{
    if supported {
        let mut text = "✓ ".to_owned();
        text.append(name);
        text
    } else {
        let mut text = "✗ ".to_owned();
        text.append(name);
        text.append(" (fallback only)");
        text
    }
}

/// What the settings screen says of the usage of the cache.
pub open spec fn usage_text(used_mb: nat, max_mb: nat, percent: nat) -> Seq<char> {
    "  Current Usage: "@ + decimal_text(used_mb) + " / "@ + decimal_text(max_mb) + "MB ("@
        + decimal_text(percent) + "%)"@
}

/// What the settings screen says of the files in the cache.
pub open spec fn files_text(total: nat, avatars: nat, attachments: nat) -> Seq<char> {
    "  Files: "@ + decimal_text(total) + " total ("@ + decimal_text(avatars) + " avatars, "@
        + decimal_text(attachments) + " attachments)"@
}

/// What the settings screen says of the usage of the cache.
pub fn usage_line(stats: &CacheStats, max_cache_size_mb: usize) -> (text: String)
    ensures
        text@ == usage_text(
            (stats.total_size_bytes / 1_048_576) as nat,
            max_cache_size_mb as nat,
            usage_percent_of(stats.total_size_bytes as nat, max_cache_size_mb as nat),
        ),
{
    let mut text = "  Current Usage: ".to_owned();
    push_decimal(&mut text, stats.total_size_mb());
    text.append(" / ");
    push_decimal(&mut text, max_cache_size_mb as u64);
    text.append("MB (");
    push_decimal(&mut text, usage_percent(stats.total_size_bytes, max_cache_size_mb) as u64);
    text.append("%)");
    text
}

/// What the settings screen says of the files in the cache.
pub fn files_line(stats: &CacheStats) -> (text: String)
    ensures
        text@ == files_text(
            stats.total_files as nat,
            stats.avatar_files as nat,
            stats.attachment_files as nat,
        ),
{
    let mut text = "  Files: ".to_owned();
    push_decimal(&mut text, stats.total_files as u64);
    text.append(" total (");
    push_decimal(&mut text, stats.avatar_files as u64);
    text.append(" avatars, ");
    push_decimal(&mut text, stats.attachment_files as u64);
    text.append(" attachments)");
    text
}

} // verus!

//! Version checks and compatibility rules for `arc-node-consensus` images.
//!
//! * [`ensure_cl_image_supported`] rejects images older than v0.5.0, which are
//!   driven by a `config.toml` that is no longer generated.
//!
//! * [`apply_version_compat`] rewrites the CLI flag list of the current build
//!   so that it matches the flags that the target image knows: flags that the
//!   image lacks are dropped, and renamed flags get their former name back.
use crate::text;
use vstd::prelude::*;

verus! {

/// The first part of a version: `(major, minor, patch)`.
pub type Version = (u64, u64, u64);

/// The oldest supported release, and the last one that lacks the flags of
/// [`flags_added_after_v0_5_0`].
pub const V0_5_0: (u64, u64, u64) = (0, 5, 0);

/// The last release that lacks `--validator`.
pub const V0_6_0: (u64, u64, u64) = (0, 6, 0);

/// `a` comes before `b`: the major numbers decide, then the minor, then the patch numbers.
pub open spec fn precedes(a: Version, b: Version) -> bool {
    ||| a.0 < b.0
    ||| a.0 == b.0 && a.1 < b.1
    ||| a.0 == b.0 && a.1 == b.1 && a.2 < b.2
}

/// `a` is not newer than `b`.
pub open spec fn at_most(a: Version, b: Version) -> bool {
    !precedes(b, a)
}

pub open spec fn is_digit(c: char) -> bool {
    '0' <= c <= '9'
}

/// The number that a run of decimal digits stands for.
pub open spec fn digits_value(digits: Seq<char>) -> nat
    decreases digits.len(),
{
    if digits.len() == 0 {
        0
    } else {
        digits_value(digits.drop_last()) * 10 + (digits.last() as nat - '0' as nat) as nat
    }
}

/// The number that `text` denotes: only decimal digits, at least one, with a value
/// that 64 bits hold.
pub open spec fn number(text: Seq<char>) -> Option<u64> {
    if text.len() > 0 && (forall|i: int| 0 <= i < text.len() ==> is_digit(#[trigger] text[i]))
        && digits_value(text) <= u64::MAX {
        Some(digits_value(text) as u64)
    } else {
        None
    }
}

/// A character that ends the patch number: what follows is a prerelease or build label.
pub open spec fn starts_label(c: char) -> bool {
    c == '-' || c == '+'
}

/// `text` up to the first character that starts a label.
pub open spec fn before_label(text: Seq<char>) -> Seq<char>
    decreases text.len(),
{
    if text.len() == 0 || starts_label(text[0]) {
        Seq::<char>::empty()
    } else {
        seq![text[0]] + before_label(text.skip(1))
    }
}

/// `text` without one leading `v`.
pub open spec fn without_v(text: Seq<char>) -> Seq<char> {
    if text.len() > 0 && text[0] == 'v' {
        text.skip(1)
    } else {
        text
    }
}

/// The version that dot-separated `parts` stand for. Labels may hold dots, so there
/// are more than three parts only where a label begins in the third.
pub open spec fn version_of_parts(parts: Seq<Seq<char>>) -> Option<Version> {
    if parts.len() < 3 || (parts.len() > 3 && before_label(parts[2]).len() == parts[2].len()) {
        None
    } else {
        match (number(parts[0]), number(parts[1]), number(before_label(parts[2]))) {
            (Some(major), Some(minor), Some(patch)) => Some((major, minor, patch)),
            _ => None,
        }
    }
}

/// The version that an image tag pins: what follows its last colon, unless
/// that is `latest`, read as `[v]MAJOR.MINOR.PATCH[-...][+...]`.
pub open spec fn tag_version(tag: Seq<char>) -> Option<Version> {
    let version = text::fields(tag, ':').last();
    if version == "latest"@ {
        None
    } else {
        version_of_parts(text::fields(without_v(version), '.'))
    }
}

/// The version that an optional image tag pins.
pub open spec fn image_version(image_tag: Option<&str>) -> Option<Version> {
    match image_tag {
        Some(tag) => tag_version(tag@),
        None => None,
    }
}

/// An emitted flag is the flag `name`: either exactly it, or it with a value
/// behind an equals sign.
pub open spec fn is_flag(emitted: Seq<char>, name: Seq<char>) -> bool {
    ||| emitted == name
    ||| name.is_prefix_of(emitted) && emitted.len() > name.len() && emitted[name.len() as int] == '='
}

/// The flags that releases up to v0.5.0 do not know.
pub open spec fn flags_added_after_v0_5_0() -> Seq<Seq<char>> {
    seq![
        "--log-level"@,
        "--log-format"@,
        "--p2p.persistent-peers-only"@,
        "--gossipsub.explicit-peering"@,
        "--gossipsub.mesh-prioritization"@,
        "--gossipsub.load"@,
        "--execution-persistence-backpressure"@,
        "--execution-persistence-backpressure-threshold"@,
        "--execution-ws-endpoint"@,
        "--full"@,
        "--minimal"@,
        "--pprof.heap-prof"@,
    ]
}

/// The flag was added after v0.5.0.
pub open spec fn unknown_to_v0_5_0(flag: Seq<char>) -> bool {
    exists|i: int|
        0 <= i < flags_added_after_v0_5_0().len() && is_flag(
            flag,
            #[trigger] flags_added_after_v0_5_0()[i],
        )
}

/// The flag was added after v0.6.0.
pub open spec fn unknown_to_v0_6_0(flag: Seq<char>) -> bool {
    is_flag(flag, "--validator"@)
}

/// `flag`, when it is `name` with a value, with `former` in place of `name`.
pub open spec fn with_former_name(flag: Seq<char>, name: Seq<char>, former: Seq<char>) -> Seq<char> {
    if is_flag(flag, name) && flag != name {
        former + flag.skip(name.len() as int)
    } else {
        flag
    }
}

/// `flag` under the name that v0.5.0 has for it.
pub open spec fn v0_5_0_name(flag: Seq<char>) -> Seq<char> {
    if "--prune.certificates.distance"@.is_prefix_of(flag) {
        with_former_name(flag, "--prune.certificates.distance"@, "--pruning.block-interval"@)
    } else {
        with_former_name(flag, "--prune.certificates.before"@, "--pruning.min-height"@)
    }
}

/// `flags` as v0.5.0 knows them.
pub open spec fn compat_v0_5_0(flags: Seq<Seq<char>>) -> Seq<Seq<char>> {
    flags.filter(|f: Seq<char>| !unknown_to_v0_5_0(f)).map_values(|f: Seq<char>| v0_5_0_name(f))
}

/// `flags` as v0.6.0 knows them.
pub open spec fn compat_v0_6_0(flags: Seq<Seq<char>>) -> Seq<Seq<char>> {
    flags.filter(|f: Seq<char>| !unknown_to_v0_6_0(f))
}

/// `flags` as an image of the given version knows them.
pub open spec fn compat_flags(flags: Seq<Seq<char>>, version: Option<Version>) -> Seq<Seq<char>> {
    match version {
        None => flags,
        Some(v) => {
            let first = if at_most(v, V0_5_0) {
                compat_v0_5_0(flags)
            } else {
                flags
            };
            if at_most(v, V0_6_0) {
                compat_v0_6_0(first)
            } else {
                first
            }
        },
    }
}

/// The message that rejects an image.
pub open spec fn unsupported_message(image: Seq<char>) -> Seq<char> {
    "arc-node-consensus image '"@ + image
        + "' predates v0.5.0; releases before v0.5.0 require a config.toml that Quake no longer generates. Pin v0.5.0 or newer."@
}

/// An image that pins a release older than v0.5.0.
#[derive(Debug)]
pub struct UnsupportedImage {
    /// The image tag as it was given.
    pub image: String,
}

impl UnsupportedImage {
    /// The reason for the rejection, for people.
    pub fn message(&self) -> (text: String)
        ensures
            text@ == unsupported_message(self.image@),
    {
        let mut text: String = "arc-node-consensus image '".to_owned();
        text.append(self.image.as_str());
        text.append(
            "' predates v0.5.0; releases before v0.5.0 require a config.toml that Quake no longer generates. Pin v0.5.0 or newer.",
        );
        text
    }
}

/// Whether `a` comes before `b`.
fn is_before(a: Version, b: Version) -> (before: bool)
    ensures
        before == precedes(a, b),
{
    a.0 < b.0 || (a.0 == b.0 && (a.1 < b.1 || (a.1 == b.1 && a.2 < b.2)))
}

/// Rejects an image that pins a release older than v0.5.0. A missing tag,
/// `latest` and tags that pin no version are taken for current ones and pass.
pub fn ensure_cl_image_supported(image_tag: Option<&str>) -> (result: Result<(), UnsupportedImage>)
    ensures
        result is Err <==> (image_version(image_tag) matches Some(v) && precedes(v, V0_5_0)),
        result is Err <==> (image_version(image_tag) matches Some(v) && v.0 == 0 && v.1 < 5),
        result matches Err(e) ==> e.image@ == image_tag->0@,
        result matches Err(e) ==> image_tag matches Some(tag) && e.image@ == tag@,
{
    if let Some(version) = parse_image_semver(image_tag) {
        if is_before(version, V0_5_0) {
            let image: String = match image_tag {
                Some(tag) => tag.to_owned(),
                None => String::new(),
            };
            return Err(UnsupportedImage { image });
        }
    }
    Ok(())
}

/// The number that `text` denotes, if it denotes one.
fn parse_number(text: &Vec<char>) -> (parsed: Option<u64>)
    ensures
        parsed == number(text@),
{
    if text.len() == 0 {
        return None;
    }
    let mut value: u64 = 0;
    let mut i: usize = 0;
    while i < text.len()
        invariant
            0 < text.len(),
            i <= text.len(),
            forall|j: int| 0 <= j < i ==> is_digit(#[trigger] text@[j]),
            value == digits_value(text@.take(i as int)),
        decreases text.len() - i,
    {
        let c: char = text[i];
        proof {
            assert(text@[i as int] == c);
            assert(text@.take(i + 1).drop_last() =~= text@.take(i as int));
            assert(text@.take(i + 1).last() == c);
        }
        if !('0' <= c && c <= '9') {
            return None;
        }
        let digit: u64 = (c as u32 - 48) as u64;
        proof {
            assert(digits_value(text@.take(i + 1)) == value * 10 + digit);
            lemma_digits_value_grows(text@, i + 1);
        }
        match value.checked_mul(10) {
            None => {
                return None;
            },
            Some(tenfold) => {
                match tenfold.checked_add(digit) {
                    None => {
                        return None;
                    },
                    Some(next) => {
                        value = next;
                    },
                }
            },
        }
        i = i + 1;
    }
    proof {
        assert(text@.take(text@.len() as int) =~= text@);
    }
    Some(value)
}

/// More digits never denote a smaller number.
proof fn lemma_digits_value_grows(digits: Seq<char>, n: int)
    requires
        0 <= n <= digits.len(),
    ensures
        digits_value(digits.take(n)) <= digits_value(digits),
    decreases digits.len() - n,
{
    if n < digits.len() {
        lemma_digits_value_grows(digits, n + 1);
        assert(digits.take(n + 1).drop_last() =~= digits.take(n));
    } else {
        assert(digits.take(n) =~= digits);
    }
}

/// `text` up to the first label.
fn take_before_label(text: &Vec<char>) -> (core: Vec<char>)
    ensures
        core@ == before_label(text@),
{
    let mut core: Vec<char> = Vec::new();
    let mut i: usize = 0;
    proof {
        assert(text@.skip(0) =~= text@);
    }
    while i < text.len()
        invariant
            i <= text.len(),
            before_label(text@) =~= core@ + before_label(text@.skip(i as int)),
        decreases text.len() - i,
    {
        let c: char = text[i];
        proof {
            assert(text@.skip(i as int)[0] == c);
            assert(text@.skip(i as int).skip(1) =~= text@.skip(i + 1));
        }
        if c == '-' || c == '+' {
            assert(core@ =~= before_label(text@));
            return core;
        }
        core.push(c);
        i = i + 1;
    }
    assert(core@ =~= before_label(text@));
    core
}

/// The characters of `text` from the position `from` on.
fn skip_chars(text: &Vec<char>, from: usize) -> (rest: Vec<char>)
    requires
        from <= text.len(),
    ensures
        rest@ == text@.skip(from as int),
{
    let mut rest: Vec<char> = Vec::new();
    let mut i: usize = from;
    while i < text.len()
        invariant
            from <= i <= text.len(),
            rest@ =~= text@.subrange(from as int, i as int),
        decreases text.len() - i,
    {
        rest.push(text[i]);
        i = i + 1;
    }
    assert(rest@ =~= text@.skip(from as int));
    rest
}

/// Whether `text` is the word `latest`.
fn is_latest(text: &Vec<char>) -> (latest: bool)
    ensures
        latest == (text@ == "latest"@),
{
    proof {
        reveal_strlit("latest");
    }
    let latest: bool = text.len() == 6 && text[0] == 'l' && text[1] == 'a' && text[2] == 't'
        && text[3] == 'e' && text[4] == 's' && text[5] == 't';
    proof {
        if latest {
            assert(text@ =~= "latest"@);
        }
    }
    latest
}

/// Reads `(major, minor, patch)` from an image tag.
///
/// Gives a version only for explicit ones such as `v0.6.0`,
/// `arc_consensus:v0.5.1-rc1`, `v0.6.0+build.1` or `0.7.0`, and `None` for a
/// missing tag, for `latest`, and for tags that do not fit
/// `[v]MAJOR.MINOR.PATCH[-...][+...]`.
pub fn parse_image_semver(image_tag: Option<&str>) -> (version: Option<(u64, u64, u64)>)
    ensures
        version == image_version(image_tag),
        match image_tag {
            Some(tag) => version == tag_version(tag@),
            None => version is None,
        },
{
    let tag: Vec<char> = match image_tag {
        Some(tag) => text::chars_of(tag),
        None => {
            return None;
        },
    };
    let colon_parts: Vec<Vec<char>> = text::split(&tag, ':');
    let ghost colon_fields = text::fields(tag@, ':');
    proof {
        text::lemma_fields_nonempty(tag@, ':');
        assert(colon_parts@.map_values(|p: Vec<char>| p@).len() == colon_parts@.len());
        assert(colon_fields[colon_parts.len() - 1] == colon_parts@[colon_parts.len() - 1]@);
    }
    let tail: &Vec<char> = &colon_parts[colon_parts.len() - 1];
    if is_latest(tail) {
        return None;
    }
    let from: usize = if tail.len() > 0 && tail[0] == 'v' {
        1
    } else {
        0
    };
    let bare: Vec<char> = skip_chars(tail, from);
    proof {
        assert(bare@ =~= without_v(tail@));
    }
    let parts: Vec<Vec<char>> = text::split(&bare, '.');
    let ghost part_fields = text::fields(bare@, '.');
    proof {
        assert(parts@.map_values(|p: Vec<char>| p@).len() == parts@.len());
        assert(forall|i: int| 0 <= i < parts.len() ==> #[trigger] part_fields[i] == parts@[i]@);
    }
    if parts.len() < 3 {
        return None;
    }
    let patch_core: Vec<char> = take_before_label(&parts[2]);
    if parts.len() > 3 && patch_core.len() == parts[2].len() {
        return None;
    }
    match (parse_number(&parts[0]), parse_number(&parts[1]), parse_number(&patch_core)) {
        (Some(major), Some(minor), Some(patch)) => Some((major, minor, patch)),
        _ => None,
    }
}

/// Whether an emitted flag is the flag `flag_name`. Flags are emitted as
/// `--foo` (booleans) or `--foo=<value>` (values, lists included); both forms
/// match the name `--foo`.
pub fn flag_matches(emitted: &str, flag_name: &str) -> (matched: bool)
    ensures
        matched == is_flag(emitted@, flag_name@),
        matched == is_option(emitted@, flag_name@),
{
    proof {
        law_flag_has_a_name_and_a_value(emitted@, flag_name@);
    }
    if !text::starts_with(emitted, flag_name) {
        return false;
    }
    let n: usize = flag_name.unicode_len();
    if emitted.unicode_len() == n {
        assert(emitted@ =~= flag_name@);
        return true;
    }
    emitted.get_char(n) == '='
}

/// Whether the flag was added after v0.5.0.
fn is_unknown_to_v0_5_0(flag: &str) -> (unknown: bool)
    ensures
        unknown == unknown_to_v0_5_0(flag@),
{
    let unknown: bool = flag_matches(flag, "--log-level") || flag_matches(flag, "--log-format")
        || flag_matches(flag, "--p2p.persistent-peers-only") || flag_matches(
        flag,
        "--gossipsub.explicit-peering",
    ) || flag_matches(flag, "--gossipsub.mesh-prioritization") || flag_matches(
        flag,
        "--gossipsub.load",
    ) || flag_matches(flag, "--execution-persistence-backpressure") || flag_matches(
        flag,
        "--execution-persistence-backpressure-threshold",
    ) || flag_matches(flag, "--execution-ws-endpoint") || flag_matches(flag, "--full")
        || flag_matches(flag, "--minimal") || flag_matches(flag, "--pprof.heap-prof");
    proof {
        let all = flags_added_after_v0_5_0();
        assert(unknown_to_v0_5_0(flag@) == (is_flag(flag@, all[0]) || is_flag(flag@, all[1])
            || is_flag(flag@, all[2]) || is_flag(flag@, all[3]) || is_flag(flag@, all[4])
            || is_flag(flag@, all[5]) || is_flag(flag@, all[6]) || is_flag(flag@, all[7])
            || is_flag(flag@, all[8]) || is_flag(flag@, all[9]) || is_flag(flag@, all[10])
            || is_flag(flag@, all[11])));
    }
    unknown
}

/// `flag` under its former name when it is `name` with a value.
fn rename_flag(flag: &str, name: &str, former: &str) -> (renamed: String)
    requires
        name@.is_prefix_of(flag@),
    ensures
        renamed@ == with_former_name(flag@, name@, former@),
{
    let n: usize = name.unicode_len();
    let length: usize = flag.unicode_len();
    if length > n && flag.get_char(n) == '=' {
        let mut renamed: String = former.to_owned();
        renamed.append(flag.substring_char(n, length));
        proof {
            assert(flag@.subrange(n as int, length as int) =~= flag@.skip(n as int));
        }
        renamed
    } else {
        flag.to_owned()
    }
}

/// `flag` under the name that v0.5.0 has for it.
fn name_in_v0_5_0(flag: &str) -> (renamed: String)
    ensures
        renamed@ == v0_5_0_name(flag@),
{
    if text::starts_with(flag, "--prune.certificates.distance") {
        rename_flag(flag, "--prune.certificates.distance", "--pruning.block-interval")
    } else if text::starts_with(flag, "--prune.certificates.before") {
        rename_flag(flag, "--prune.certificates.before", "--pruning.min-height")
    } else {
        flag.to_owned()
    }
}

/// `flags` as v0.5.0 knows them.
fn to_v0_5_0(flags: Vec<String>) -> (kept: Vec<String>)
    ensures
        text::texts(kept@) == compat_v0_5_0(text::texts(flags@)),
{
    let mut kept: Vec<String> = Vec::new();
    let mut i: usize = 0;
    let ghost all = text::texts(flags@);
    let ghost known = |f: Seq<char>| !unknown_to_v0_5_0(f);
    let ghost rename = |f: Seq<char>| v0_5_0_name(f);
    proof {
        assert(all.take(0) =~= Seq::<Seq<char>>::empty());
        reveal(Seq::filter);
    }
    while i < flags.len()
        invariant
            i <= flags.len(),
            all == text::texts(flags@),
            known == (|f: Seq<char>| !unknown_to_v0_5_0(f)),
            rename == (|f: Seq<char>| v0_5_0_name(f)),
            text::texts(kept@) == all.take(i as int).filter(known).map_values(rename),
        decreases flags.len() - i,
    {
        proof {
            reveal(Seq::filter);
            assert(all.take(i + 1).drop_last() =~= all.take(i as int));
            assert(all.take(i + 1).last() == flags@[i as int]@);
        }
        let ghost earlier = all.take(i as int).filter(known);
        let ghost before = kept@;
        if !is_unknown_to_v0_5_0(flags[i].as_str()) {
            kept.push(name_in_v0_5_0(flags[i].as_str()));
            proof {
                let flag = flags@[i as int]@;
                assert(known(flag));
                assert(all.take(i + 1).filter(known) == earlier.push(flag));
                assert(earlier.push(flag).map_values(rename) =~= earlier.map_values(rename).push(
                    rename(flag),
                ));
                assert(text::texts(kept@) =~= text::texts(before).push(rename(flag)));
            }
        }
        i = i + 1;
    }
    proof {
        assert(all.take(all.len() as int) =~= all);
    }
    kept
}

/// `flags` as v0.6.0 knows them.
fn to_v0_6_0(flags: Vec<String>) -> (kept: Vec<String>)
    ensures
        text::texts(kept@) == compat_v0_6_0(text::texts(flags@)),
{
    let mut kept: Vec<String> = Vec::new();
    let mut i: usize = 0;
    let ghost all = text::texts(flags@);
    let ghost known = |f: Seq<char>| !unknown_to_v0_6_0(f);
    proof {
        assert(all.take(0) =~= Seq::<Seq<char>>::empty());
        reveal(Seq::filter);
    }
    while i < flags.len()
        invariant
            i <= flags.len(),
            all == text::texts(flags@),
            known == (|f: Seq<char>| !unknown_to_v0_6_0(f)),
            text::texts(kept@) =~= all.take(i as int).filter(known),
        decreases flags.len() - i,
    {
        proof {
            reveal(Seq::filter);
            assert(all.take(i + 1).drop_last() =~= all.take(i as int));
            assert(all.take(i + 1).last() == flags@[i as int]@);
        }
        if !flag_matches(flags[i].as_str(), "--validator") {
            kept.push(flags[i].clone());
        }
        i = i + 1;
    }
    proof {
        assert(all.take(all.len() as int) =~= all);
    }
    kept
}

/// Rewrites the CLI flag list of this build so that it matches what the target
/// image knows.
///
/// A missing tag, `latest` and tags that pin no version leave the list as it
/// is. Older targets lose the flags that came after them, and get renamed
/// flags under their former names, values kept.
pub fn apply_version_compat(flags: Vec<String>, image_tag: Option<&str>) -> (rewritten: Vec<String>)
    ensures
        text::texts(rewritten@) == compat_flags(text::texts(flags@), image_version(image_tag)),
        match image_tag {
            Some(tag) => text::texts(rewritten@) == compat_flags(
                text::texts(flags@),
                tag_version(tag@),
            ),
            None => rewritten@ == flags@,
        },
        image_version(image_tag) is None ==> rewritten@ == flags@,
{
    let version: Version = match parse_image_semver(image_tag) {
        Some(version) => version,
        None => {
            return flags;
        },
    };
    let mut flags: Vec<String> = flags;
    if !is_before(V0_5_0, version) {
        flags = to_v0_5_0(flags);
    }
    if !is_before(V0_6_0, version) {
        flags = to_v0_6_0(flags);
    }
    flags
}

/// Filtering keeps everything when everything passes.
proof fn lemma_filter_keeps(flags: Seq<Seq<char>>, known: spec_fn(Seq<char>) -> bool)
    requires
        forall|i: int| 0 <= i < flags.len() ==> known(#[trigger] flags[i]),
    ensures
        flags.filter(known) == flags,
    decreases flags.len(),
{
    reveal(Seq::filter);
    if flags.len() > 0 {
        lemma_filter_keeps(flags.drop_last(), known);
        assert(known(flags[flags.len() - 1]));
        assert(flags.drop_last().push(flags.last()) =~= flags);
    }
}

/// What filtering keeps passes, and was there before.
proof fn lemma_filter_members(flags: Seq<Seq<char>>, known: spec_fn(Seq<char>) -> bool, i: int)
    requires
        0 <= i < flags.filter(known).len(),
    ensures
        known(flags.filter(known)[i]),
        flags.contains(flags.filter(known)[i]),
    decreases flags.len(),
{
    reveal(Seq::filter);
    if flags.len() > 0 {
        let shorter = flags.drop_last().filter(known);
        if i < shorter.len() {
            lemma_filter_members(flags.drop_last(), known, i);
            let flag = flags.filter(known)[i];
            let j = flags.drop_last().index_of(flag);
            assert(flags[j] == flag);
        } else {
            assert(flags[flags.len() - 1] == flags.last());
        }
    }
}

/// What a flag becomes for v0.5.0 is known to v0.5.0, is not renamed again, and
/// is unknown to v0.6.0 only when the flag was.
proof fn lemma_v0_5_0_name(flag: Seq<char>)
    requires
        !unknown_to_v0_5_0(flag),
    ensures
        !unknown_to_v0_5_0(v0_5_0_name(flag)),
        v0_5_0_name(v0_5_0_name(flag)) == v0_5_0_name(flag),
        unknown_to_v0_6_0(v0_5_0_name(flag)) == unknown_to_v0_6_0(flag),
        v0_5_0_name(flag) != flag ==> !unknown_to_v0_6_0(flag),
{
    reveal_strlit("--prune.certificates.distance");
    reveal_strlit("--prune.certificates.before");
    reveal_strlit("--pruning.block-interval");
    reveal_strlit("--pruning.min-height");
    reveal_strlit("--log-level");
    reveal_strlit("--log-format");
    reveal_strlit("--p2p.persistent-peers-only");
    reveal_strlit("--gossipsub.explicit-peering");
    reveal_strlit("--gossipsub.mesh-prioritization");
    reveal_strlit("--gossipsub.load");
    reveal_strlit("--execution-persistence-backpressure");
    reveal_strlit("--execution-persistence-backpressure-threshold");
    reveal_strlit("--execution-ws-endpoint");
    reveal_strlit("--full");
    reveal_strlit("--minimal");
    reveal_strlit("--pprof.heap-prof");
    reveal_strlit("--validator");
    let renamed = v0_5_0_name(flag);
    if renamed != flag {
        assert(renamed[2] == 'p' && renamed[3] == 'r' && renamed[5] == 'n' && renamed[6] == 'i');
        let name = if "--prune.certificates.distance"@.is_prefix_of(flag) {
            "--prune.certificates.distance"@
        } else {
            "--prune.certificates.before"@
        };
        assert(flag.subrange(0, name.len() as int)[2] == name[2]);
        assert(flag[2] == 'p');
        assert forall|i: int| 0 <= i < flags_added_after_v0_5_0().len() implies !is_flag(
            renamed,
            #[trigger] flags_added_after_v0_5_0()[i],
        ) by {
            let name = flags_added_after_v0_5_0()[i];
            assert(name.len() > 3 && (name[2] != 'p' || name[3] != 'r'));
            if is_flag(renamed, name) {
                assert(renamed[2] == name[2] && renamed[3] == name[3]);
            }
        }
        let distance = "--prune.certificates.distance"@;
        let before = "--prune.certificates.before"@;
        assert(distance[6] == 'e' && before[6] == 'e');
        assert(!distance.is_prefix_of(renamed) && !before.is_prefix_of(renamed));
    }
}

/// A target that pins no version gets every flag as it is: without a tag, and
/// with the tag `latest`, bare or behind an image name.
pub proof fn law_latest_leaves_flags_unchanged(flags: Seq<Seq<char>>, image: Seq<char>)
    ensures
        compat_flags(flags, image_version(None)) == flags,
        compat_flags(flags, tag_version("latest"@)) == flags,
        compat_flags(flags, tag_version(image.push(':') + "latest"@)) == flags,
{
    reveal_strlit("latest");
    text::lemma_fields_without_separator("latest"@, ':');
    text::lemma_fields_last_after_separator(image, "latest"@, ':');
}

/// A target newer than v0.6.0 gets every flag as it is.
pub proof fn law_newer_targets_leave_flags_unchanged(flags: Seq<Seq<char>>, version: Version)
    requires
        precedes(V0_6_0, version),
    ensures
        compat_flags(flags, Some(version)) == flags,
{
}

/// A target up to v0.6.0 gets no flag that came after v0.6.0, and one up to
/// v0.5.0 none that came after v0.5.0 and none under a name that is newer than v0.5.0.
pub proof fn law_old_targets_get_no_unknown_flag(
    flags: Seq<Seq<char>>,
    version: Version,
    flag: Seq<char>,
)
    requires
        compat_flags(flags, Some(version)).contains(flag),
    ensures
        at_most(version, V0_6_0) ==> !unknown_to_v0_6_0(flag),
        at_most(version, V0_5_0) ==> !unknown_to_v0_5_0(flag) && v0_5_0_name(flag) == flag,
{
    let known_5 = |f: Seq<char>| !unknown_to_v0_5_0(f);
    let known_6 = |f: Seq<char>| !unknown_to_v0_6_0(f);
    let rename = |f: Seq<char>| v0_5_0_name(f);
    if at_most(version, V0_6_0) {
        let first = if at_most(version, V0_5_0) {
            compat_v0_5_0(flags)
        } else {
            flags
        };
        let i = first.filter(known_6).index_of(flag);
        lemma_filter_members(first, known_6, i);
        if at_most(version, V0_5_0) {
            let j = first.index_of(flag);
            let kept = flags.filter(known_5);
            assert(first[j] == v0_5_0_name(kept[j]));
            lemma_filter_members(flags, known_5, j);
            lemma_v0_5_0_name(kept[j]);
        }
    }
}

/// Rewriting a rewritten list for the same target changes nothing.
pub proof fn law_rewriting_is_idempotent(flags: Seq<Seq<char>>, version: Option<Version>)
    ensures
        compat_flags(compat_flags(flags, version), version) == compat_flags(flags, version),
{
    if let Some(v) = version {
        let once = compat_flags(flags, version);
        let known_5 = |f: Seq<char>| !unknown_to_v0_5_0(f);
        let known_6 = |f: Seq<char>| !unknown_to_v0_6_0(f);
        let rename = |f: Seq<char>| v0_5_0_name(f);
        assert forall|i: int| 0 <= i < once.len() implies {
            &&& at_most(v, V0_6_0) ==> known_6(#[trigger] once[i])
            &&& at_most(v, V0_5_0) ==> known_5(once[i]) && v0_5_0_name(once[i]) == once[i]
        } by {
            law_old_targets_get_no_unknown_flag(flags, v, once[i]);
        }
        if at_most(v, V0_5_0) {
            lemma_filter_keeps(once, known_5);
            assert(once.map_values(rename) =~= once);
        }
        if at_most(v, V0_6_0) {
            lemma_filter_keeps(once, known_6);
        }
    }
}

/// What stands before the last colon of a tag (registry, port, image name) does
/// not matter for the version.
pub proof fn law_image_name_does_not_matter(image: Seq<char>, tag: Seq<char>)
    ensures
        tag_version(image.push(':') + tag) == tag_version(tag),
{
    text::lemma_fields_last_after_separator(image, tag, ':');
}

/// A leading `v` does not matter for the version.
pub proof fn law_leading_v_does_not_matter(tag: Seq<char>)
    requires
        !tag.contains(':'),
        tag.len() > 0 ==> tag[0] != 'v',
    ensures
        tag_version(seq!['v'] + tag) == tag_version(tag),
{
    let with_v = seq!['v'] + tag;
    reveal_strlit("latest");
    assert(!with_v.contains(':')) by {
        if with_v.contains(':') {
            let i = with_v.index_of(':');
            assert(tag[i - 1] == ':');
        }
    }
    text::lemma_fields_without_separator(tag, ':');
    text::lemma_fields_without_separator(with_v, ':');
    assert(with_v.skip(1) =~= tag);
    assert(with_v[0] == 'v');
    assert("latest"@[0] == 'l');
    if tag == "latest"@ {
        assert(!tag.contains('.')) by {
            if tag.contains('.') {
                let i = tag.index_of('.');
                assert(tag[i] == '.');
            }
        }
        text::lemma_fields_without_separator(tag, '.');
    }
}

/// What stands before the first label is found again in any text that goes on
/// from there with a label.
proof fn lemma_before_label_extended(core: Seq<char>, longer: Seq<char>, label: char)
    requires
        starts_label(label),
        core.push(label).is_prefix_of(longer),
    ensures
        before_label(longer) == before_label(core),
        before_label(core).len() <= core.len(),
    decreases core.len(),
{
    if core.len() == 0 {
        assert(longer[0] == core.push(label)[0]);
    } else {
        assert(longer[0] == core.push(label)[0]);
        assert(core.skip(1).push(label) =~= core.push(label).skip(1));
        assert(core.skip(1).push(label).is_prefix_of(longer.skip(1))) by {
            assert(longer.skip(1).take(core.len() as int) =~= core.skip(1).push(label));
        }
        lemma_before_label_extended(core.skip(1), longer.skip(1), label);
    }
}

/// A prerelease or build label behind a version does not change the version.
pub proof fn law_label_does_not_change_version(tag: Seq<char>, label: Seq<char>)
    requires
        tag_version(tag) is Some,
        label.len() > 0,
        label[0] == '-' || label[0] == '+',
        !label.contains(':'),
    ensures
        tag_version(tag + label) == tag_version(tag),
{
    reveal_strlit("latest");
    let old_last = text::fields(tag, ':').last();
    lemma_last_field_appended(tag, label, ':');
    let new_last = text::fields(tag + label, ':').last();
    assert(new_last == old_last + label);
    assert(old_last.len() > 0) by {
        if old_last.len() == 0 {
            assert(old_last =~= Seq::<char>::empty());
            assert(text::fields(old_last, '.').len() == 1);
        }
    }
    assert(new_last != "latest"@) by {
        assert(new_last[old_last.len() as int] == label[0]);
        if new_last == "latest"@ {
            let k = old_last.len() as int;
            assert("latest"@[k] == label[0]);
        }
    }
    let old_bare = without_v(old_last);
    assert(without_v(new_last) =~= old_bare + label);
    text::lemma_fields_append(old_bare, label, '.');
    let old_parts = text::fields(old_bare, '.');
    let new_parts = text::fields(old_bare + label, '.');
    assert(new_parts[0] == old_parts[0] && new_parts[1] == old_parts[1]);
    if old_parts.len() == 3 {
        lemma_before_label_extended(old_parts[2], new_parts[2], label[0]);
    }
}

/// Text without the separator only makes the last field longer.
proof fn lemma_last_field_appended(s: Seq<char>, t: Seq<char>, separator: char)
    requires
        !t.contains(separator),
    ensures
        text::fields(s + t, separator).last() == text::fields(s, separator).last() + t,
    decreases t.len(),
{
    text::lemma_fields_nonempty(s, separator);
    if t.len() == 0 {
        assert(s + t =~= s);
        assert(text::fields(s, separator).last() + t =~= text::fields(s, separator).last());
    } else {
        assert(t[t.len() - 1] == t.last());
        assert(!t.drop_last().contains(separator)) by {
            if t.drop_last().contains(separator) {
                let i = t.drop_last().index_of(separator);
                assert(t[i] == separator);
            }
        }
        lemma_last_field_appended(s, t.drop_last(), separator);
        assert((s + t).drop_last() =~= s + t.drop_last());
        assert((text::fields(s, separator).last() + t.drop_last()).push(t.last())
            =~= text::fields(s, separator).last() + t);
    }
}

/// `flag` is the option `name`: the name alone, or the name, an equals sign and a value.
pub open spec fn is_option(flag: Seq<char>, name: Seq<char>) -> bool {
    flag == name || exists|value: Seq<char>| flag == #[trigger] (name.push('=') + value)
}

/// A flag is matched by its name alone, and by its name with a value behind an
/// equals sign, and by nothing else: `--validator-set` is not `--validator`.
pub proof fn law_flag_has_a_name_and_a_value(emitted: Seq<char>, name: Seq<char>)
    ensures
        is_flag(emitted, name) == is_option(emitted, name),
{
    if is_flag(emitted, name) && emitted != name {
        let value = emitted.skip(name.len() as int + 1);
        assert(emitted =~= name.push('=') + value) by {
            assert(emitted.subrange(0, name.len() as int) =~= name);
            assert forall|i: int| 0 <= i < emitted.len() implies emitted[i] == (name.push('=')
                + value)[i] by {
                if i < name.len() {
                    assert(emitted.subrange(0, name.len() as int)[i] == name[i]);
                }
            }
        }
    }
    if is_option(emitted, name) && emitted != name {
        let value = choose|value: Seq<char>| emitted == #[trigger] (name.push('=') + value);
        assert(emitted.subrange(0, name.len() as int) =~= name);
        assert(emitted[name.len() as int] == '=');
    }
}

/// Versions are ordered by the major number, then by the minor one, then by the
/// patch number, and no version comes before itself.
pub proof fn law_versions_are_ordered_by_number(a: Version, b: Version)
    ensures
        a.0 < b.0 ==> precedes(a, b) && !precedes(b, a),
        a.0 == b.0 && a.1 < b.1 ==> precedes(a, b) && !precedes(b, a),
        a.0 == b.0 && a.1 == b.1 && a.2 < b.2 ==> precedes(a, b) && !precedes(b, a),
        a == b ==> !precedes(a, b),
{
}

/// The digits of a decimal numeral, and the number that they are read as.
proof fn lemma_decimal_is_read(n: nat)
    ensures
        text::decimal(n).len() > 0,
        forall|i: int| 0 <= i < text::decimal(n).len() ==> is_digit(#[trigger] text::decimal(n)[i]),
        digits_value(text::decimal(n)) == n,
    decreases n,
{
    if n < 10 {
        text::law_decimal_is_positional(0, n);
        reveal_with_fuel(digits_value, 2);
        assert(text::decimal(n).drop_last() =~= Seq::<char>::empty());
        assert(text::decimal(n).last() == text::decimal(n)[0]);
    } else {
        let q = n / 10;
        let r = n % 10;
        text::law_decimal_is_positional(q, r);
        text::law_decimal_is_positional(0, r);
        lemma_decimal_is_read(q);
        assert(n == 10 * q + r);
        let whole = text::decimal(n);
        assert(whole == text::decimal(q) + text::decimal(r));
        assert(whole.drop_last() =~= text::decimal(q));
        assert(whole.last() == text::decimal(r)[0]);
        assert forall|i: int| 0 <= i < whole.len() implies is_digit(#[trigger] whole[i]) by {
            if i < text::decimal(q).len() {
                assert(whole[i] == text::decimal(q)[i]);
            }
        }
    }
}

/// Digits hold no character that means something in a tag.
proof fn lemma_digits_are_plain(digits: Seq<char>)
    requires
        forall|i: int| 0 <= i < digits.len() ==> is_digit(#[trigger] digits[i]),
    ensures
        !digits.contains('.'),
        !digits.contains(':'),
        before_label(digits) == digits,
    decreases digits.len(),
{
    assert(!digits.contains('.')) by {
        if digits.contains('.') {
            assert(is_digit(digits[digits.index_of('.')]));
        }
    }
    assert(!digits.contains(':')) by {
        if digits.contains(':') {
            assert(is_digit(digits[digits.index_of(':')]));
        }
    }
    if digits.len() > 0 {
        assert(is_digit(digits[0]));
        assert forall|i: int| 0 <= i < digits.skip(1).len() implies is_digit(
            #[trigger] digits.skip(1)[i],
        ) by {
            assert(digits.skip(1)[i] == digits[i + 1]);
        }
        lemma_digits_are_plain(digits.skip(1));
        assert(seq![digits[0]] + digits.skip(1) =~= digits);
    } else {
        assert(digits =~= Seq::<char>::empty());
    }
}

/// `text` is nothing but decimal digits, at least one, and `value` is their number.
pub open spec fn spells(text: Seq<char>, value: u64) -> bool {
    &&& text.len() > 0
    &&& forall|i: int| 0 <= i < text.len() ==> '0' <= #[trigger] text[i] <= '9'
    &&& digits_value(text) == value
}

/// Three runs of digits with dots between them pin the version that they spell, however
/// they are written: with leading zeros too.
pub proof fn law_every_spelling_is_read(
    major: Seq<char>,
    minor: Seq<char>,
    patch: Seq<char>,
    version: Version,
)
    requires
        spells(major, version.0),
        spells(minor, version.1),
        spells(patch, version.2),
    ensures
        tag_version(major.push('.') + (minor.push('.') + patch)) == Some(version),
{
    assert forall|i: int| 0 <= i < major.len() implies is_digit(#[trigger] major[i]) by {}
    assert forall|i: int| 0 <= i < minor.len() implies is_digit(#[trigger] minor[i]) by {}
    assert forall|i: int| 0 <= i < patch.len() implies is_digit(#[trigger] patch[i]) by {}
    lemma_digits_are_plain(major);
    lemma_digits_are_plain(minor);
    lemma_digits_are_plain(patch);
    let rest = minor.push('.') + patch;
    let tag = major.push('.') + rest;
    text::law_fields_split_at_separators(minor, patch, '.');
    text::law_fields_split_at_separators(major, rest, '.');
    text::lemma_fields_without_separator(major, '.');
    text::lemma_fields_without_separator(minor, '.');
    text::lemma_fields_without_separator(patch, '.');
    assert(text::fields(tag, '.') =~= seq![major, minor, patch]);
    assert(!tag.contains(':')) by {
        if tag.contains(':') {
            let i = tag.index_of(':');
            if i < major.len() {
                assert(major[i] == ':');
            } else if i > major.len() && i < major.len() + 1 + minor.len() {
                assert(minor[i - major.len() - 1] == ':');
            } else if i > major.len() + 1 + minor.len() {
                assert(patch[i - major.len() - minor.len() - 2] == ':');
            }
        }
    }
    text::lemma_fields_without_separator(tag, ':');
    reveal_strlit("latest");
    assert(tag[0] == major[0]);
    assert(is_digit(major[0]));
    assert("latest"@[0] == 'l');
}

/// A version is read back from the tag that it is written as: the three numbers
/// in decimal, with dots between them.
pub proof fn law_written_version_is_read_back(version: Version)
    ensures
        tag_version(
            text::decimal(version.0 as nat).push('.') + (text::decimal(version.1 as nat).push('.')
                + text::decimal(version.2 as nat)),
        ) == Some(version),
{
    let major = text::decimal(version.0 as nat);
    let minor = text::decimal(version.1 as nat);
    let patch = text::decimal(version.2 as nat);
    lemma_decimal_is_read(version.0 as nat);
    lemma_decimal_is_read(version.1 as nat);
    lemma_decimal_is_read(version.2 as nat);
    assert forall|i: int| 0 <= i < major.len() implies '0' <= #[trigger] major[i] <= '9' by {
        assert(is_digit(major[i]));
    }
    assert forall|i: int| 0 <= i < minor.len() implies '0' <= #[trigger] minor[i] <= '9' by {
        assert(is_digit(minor[i]));
    }
    assert forall|i: int| 0 <= i < patch.len() implies '0' <= #[trigger] patch[i] <= '9' by {
        assert(is_digit(patch[i]));
    }
    law_every_spelling_is_read(major, minor, patch, version);
}

/// A tag has the given parts: what stands before the version, the three numbers
/// with dots between them, and a label.
pub open spec fn tag_of(
    image: Seq<char>,
    major: Seq<char>,
    minor: Seq<char>,
    patch: Seq<char>,
    label: Seq<char>,
) -> Seq<char> {
    image + (major.push('.') + (minor.push('.') + (patch + label)))
}

/// Only such a tag pins a version: at its start, behind a colon, or behind one `v`
/// there, three numbers with dots between them, then nothing, or a label that
/// begins with a minus or a plus sign. The numbers are those that the digits spell.
pub proof fn law_only_written_versions_are_read(tag: Seq<char>, version: Version)
    requires
        tag_version(tag) == Some(version),
    ensures
        exists|image: Seq<char>, major: Seq<char>, minor: Seq<char>, patch: Seq<char>, label: Seq<
            char,
        >|
            {
                &&& tag == #[trigger] tag_of(image, major, minor, patch, label)
                &&& image.len() == 0 || image.last() == ':' || (image.last() == 'v' && (image.len()
                    == 1 || image[image.len() - 2] == ':'))
                &&& spells(major, version.0)
                &&& spells(minor, version.1)
                &&& spells(patch, version.2)
                &&& label.len() == 0 || label[0] == '-' || label[0] == '+'
            },
{
    let last = text::fields(tag, ':').last();
    let before = text::lemma_last_field(tag, ':');
    let bare = without_v(last);
    let image = if last.len() > 0 && last[0] == 'v' {
        before.push('v')
    } else {
        before
    };
    assert(tag =~= image + bare);
    let (major, minor, patch, label) = lemma_version_is_written(bare, version);
    assert(tag =~= tag_of(image, major, minor, patch, label));
}

/// The parts of a text that pins a version: the three numbers, and a label.
proof fn lemma_version_is_written(bare: Seq<char>, version: Version) -> (parts: (
    Seq<char>,
    Seq<char>,
    Seq<char>,
    Seq<char>,
))
    requires
        version_of_parts(text::fields(bare, '.')) == Some(version),
    ensures
        bare == parts.0.push('.') + (parts.1.push('.') + (parts.2 + parts.3)),
        spells(parts.0, version.0),
        spells(parts.1, version.1),
        spells(parts.2, version.2),
        parts.3.len() == 0 || parts.3[0] == '-' || parts.3[0] == '+',
{
    let parts = text::fields(bare, '.');
    let rest = text::lemma_first_field(bare, '.');
    let third = text::lemma_first_field(rest, '.');
    assert(parts.skip(1).skip(1) =~= parts.skip(2));
    let (major, minor, patch) = (parts[0], parts[1], before_label(parts[2]));
    assert(text::fields(rest, '.')[0] == parts[1]);
    text::lemma_fields_nonempty(third, '.');
    lemma_before_label_splits(parts[2]);
    let behind = if parts.len() == 3 {
        text::lemma_one_field(third, '.');
        assert(text::fields(third, '.')[0] == parts.skip(2)[0]);
        assert(third =~= parts[2]);
        Seq::<char>::empty()
    } else {
        let further = text::lemma_first_field(third, '.');
        assert(text::fields(third, '.')[0] == parts[2]);
        seq!['.'] + further
    };
    assert(third =~= parts[2] + behind);
    let label = parts[2].skip(patch.len() as int) + behind;
    assert(third =~= patch + label);
    lemma_number_is_spelled(major, version.0);
    lemma_number_is_spelled(minor, version.1);
    lemma_number_is_spelled(patch, version.2);
    (major, minor, patch, label)
}

/// A number is read from nothing but its digits.
proof fn lemma_number_is_spelled(text: Seq<char>, value: u64)
    requires
        number(text) == Some(value),
    ensures
        spells(text, value),
{
    assert forall|i: int| 0 <= i < text.len() implies '0' <= #[trigger] text[i] <= '9' by {
        assert(is_digit(text[i]));
    }
}

/// What stands before the first label is the text's beginning, and a label follows
/// where the text goes on.
proof fn lemma_before_label_splits(text: Seq<char>)
    ensures
        before_label(text).len() <= text.len(),
        text == before_label(text) + text.skip(before_label(text).len() as int),
        before_label(text).len() < text.len() ==> starts_label(
            text[before_label(text).len() as int],
        ),
    decreases text.len(),
{
    if text.len() == 0 || starts_label(text[0]) {
        assert(text =~= Seq::<char>::empty() + text.skip(0));
    } else {
        lemma_before_label_splits(text.skip(1));
        let inner = before_label(text.skip(1));
        assert(before_label(text) =~= seq![text[0]] + inner);
        if inner.len() < text.skip(1).len() {
            assert(text.skip(1)[inner.len() as int] == text[before_label(text).len() as int]);
        }
        assert forall|i: int| 0 <= i < text.len() implies text[i] == (before_label(text)
            + text.skip(before_label(text).len() as int))[i] by {
            if 0 < i < before_label(text).len() {
                assert((inner + text.skip(1).skip(inner.len() as int))[i - 1] == text.skip(1)[i
                    - 1]);
            }
        }
        assert(text =~= before_label(text) + text.skip(before_label(text).len() as int));
    }
}

/// Digits are read from the left: one more digit multiplies what stands before it
/// by ten and adds its own value.
pub proof fn law_numbers_are_read_digit_by_digit(digits: Seq<char>, digit: char)
    requires
        '0' <= digit <= '9',
    ensures
        number(seq![digit]) == Some((digit as int - 48) as u64),
        number(digits) matches Some(value) ==> number(digits.push(digit)) == (if value * 10 + (
        digit as int - 48) <= u64::MAX {
            Some((value * 10 + (digit as int - 48)) as u64)
        } else {
            None
        }),
{
    reveal_with_fuel(digits_value, 2);
    let one = seq![digit];
    assert(one.drop_last() =~= Seq::<char>::empty());
    assert(one.last() == digit);
    assert forall|i: int| 0 <= i < one.len() implies is_digit(#[trigger] one[i]) by {}
    if number(digits) is Some {
        let longer = digits.push(digit);
        assert(longer.drop_last() =~= digits);
        assert forall|i: int| 0 <= i < longer.len() implies is_digit(#[trigger] longer[i]) by {
            if i < digits.len() {
                assert(longer[i] == digits[i]);
            }
        }
    }
}

/// Filtering two lists one behind the other filters each of them.
proof fn lemma_filter_adds(
    a: Seq<Seq<char>>,
    b: Seq<Seq<char>>,
    known: spec_fn(Seq<char>) -> bool,
)
    ensures
        (a + b).filter(known) == a.filter(known) + b.filter(known),
    decreases b.len(),
{
    reveal(Seq::filter);
    if b.len() == 0 {
        assert(a + b =~= a);
        assert(a.filter(known) + b.filter(known) =~= a.filter(known));
    } else {
        lemma_filter_adds(a, b.drop_last(), known);
        assert((a + b).drop_last() =~= a + b.drop_last());
        assert((a + b).last() == b.last());
        assert((a + b).filter(known) =~= a.filter(known) + b.filter(known));
    }
}

/// A list is rewritten flag by flag: what a flag becomes does not depend on the
/// flags round it, and the order stays.
pub proof fn law_flags_are_rewritten_one_by_one(
    a: Seq<Seq<char>>,
    b: Seq<Seq<char>>,
    version: Option<Version>,
)
    ensures
        compat_flags(a + b, version) == compat_flags(a, version) + compat_flags(b, version),
        compat_flags(Seq::<Seq<char>>::empty(), version) == Seq::<Seq<char>>::empty(),
{
    let known_5 = |f: Seq<char>| !unknown_to_v0_5_0(f);
    let known_6 = |f: Seq<char>| !unknown_to_v0_6_0(f);
    let rename = |f: Seq<char>| v0_5_0_name(f);
    let none = Seq::<Seq<char>>::empty();
    reveal(Seq::filter);
    lemma_filter_adds(a, b, known_5);
    lemma_filter_adds(a, b, known_6);
    assert((a.filter(known_5) + b.filter(known_5)).map_values(rename) =~= a.filter(
        known_5,
    ).map_values(rename) + b.filter(known_5).map_values(rename));
    lemma_filter_adds(compat_v0_5_0(a), compat_v0_5_0(b), known_6);
    assert(none.filter(known_5).map_values(rename) =~= none);
    assert(none.filter(known_6) =~= none);
}

/// The target is v0.5.0 or older.
pub open spec fn up_to_v0_5_0(version: Version) -> bool {
    version.0 == 0 && (version.1 < 5 || (version.1 == 5 && version.2 == 0))
}

/// The target is v0.6.0 or older.
pub open spec fn up_to_v0_6_0(version: Version) -> bool {
    version.0 == 0 && (version.1 < 6 || (version.1 == 6 && version.2 == 0))
}

/// The flag is one that v0.5.0 does not have.
pub open spec fn came_after_v0_5_0(flag: Seq<char>) -> bool {
    ||| is_option(flag, "--log-level"@)
    ||| is_option(flag, "--log-format"@)
    ||| is_option(flag, "--p2p.persistent-peers-only"@)
    ||| is_option(flag, "--gossipsub.explicit-peering"@)
    ||| is_option(flag, "--gossipsub.mesh-prioritization"@)
    ||| is_option(flag, "--gossipsub.load"@)
    ||| is_option(flag, "--execution-persistence-backpressure"@)
    ||| is_option(flag, "--execution-persistence-backpressure-threshold"@)
    ||| is_option(flag, "--execution-ws-endpoint"@)
    ||| is_option(flag, "--full"@)
    ||| is_option(flag, "--minimal"@)
    ||| is_option(flag, "--pprof.heap-prof"@)
}

/// What a single flag becomes.
///
/// * `--validator` is dropped for targets up to v0.6.0, with or without a value.
/// * The flags that came after v0.5.0 are dropped for targets up to v0.5.0.
/// * The two pruning flags get their former names for targets up to v0.5.0, and
///   keep their values.
/// * Any other flag stays as it is, and for targets after v0.6.0 every flag does.
pub proof fn law_what_a_flag_becomes(flag: Seq<char>, version: Version, value: Seq<char>)
    ensures
        up_to_v0_6_0(version) && is_option(flag, "--validator"@) ==> compat_flags(
            seq![flag],
            Some(version),
        ) == Seq::<Seq<char>>::empty(),
        up_to_v0_5_0(version) && came_after_v0_5_0(flag) ==> compat_flags(
            seq![flag],
            Some(version),
        ) == Seq::<Seq<char>>::empty(),
        up_to_v0_5_0(version) ==> compat_flags(
            seq!["--prune.certificates.distance="@ + value],
            Some(version),
        ) == seq!["--pruning.block-interval="@ + value],
        up_to_v0_5_0(version) ==> compat_flags(
            seq!["--prune.certificates.before="@ + value],
            Some(version),
        ) == seq!["--pruning.min-height="@ + value],
        up_to_v0_5_0(version) && !is_option(flag, "--validator"@) && !came_after_v0_5_0(flag)
            && !"--prune.certificates.distance="@.is_prefix_of(flag)
            && !"--prune.certificates.before="@.is_prefix_of(flag) ==> compat_flags(
            seq![flag],
            Some(version),
        ) == seq![flag],
        !up_to_v0_5_0(version) && !is_option(flag, "--validator"@) ==> compat_flags(
            seq![flag],
            Some(version),
        ) == seq![flag],
        !up_to_v0_6_0(version) ==> compat_flags(seq![flag], Some(version)) == seq![flag],
{
    let known_5 = |f: Seq<char>| !unknown_to_v0_5_0(f);
    let known_6 = |f: Seq<char>| !unknown_to_v0_6_0(f);
    let rename = |f: Seq<char>| v0_5_0_name(f);
    assert(up_to_v0_5_0(version) == at_most(version, V0_5_0));
    assert(up_to_v0_6_0(version) == at_most(version, V0_6_0));
    let distance = "--prune.certificates.distance="@ + value;
    let before = "--prune.certificates.before="@ + value;
    lemma_unknown_flags(flag);
    lemma_pruning_flags(value);
    lemma_single_flag(flag, version);
    lemma_single_flag(distance, version);
    lemma_single_flag(before, version);
    lemma_other_flags_keep_their_name(flag);
}

/// The flags of a single one.
proof fn lemma_single_flag(flag: Seq<char>, version: Version)
    ensures
        compat_flags(seq![flag], Some(version)) == (if at_most(version, V0_5_0) {
            if unknown_to_v0_5_0(flag) || unknown_to_v0_6_0(v0_5_0_name(flag)) {
                Seq::<Seq<char>>::empty()
            } else {
                seq![v0_5_0_name(flag)]
            }
        } else if at_most(version, V0_6_0) && unknown_to_v0_6_0(flag) {
            Seq::<Seq<char>>::empty()
        } else {
            seq![flag]
        }),
{
    let known_5 = |f: Seq<char>| !unknown_to_v0_5_0(f);
    let known_6 = |f: Seq<char>| !unknown_to_v0_6_0(f);
    let rename = |f: Seq<char>| v0_5_0_name(f);
    let none = Seq::<Seq<char>>::empty();
    reveal(Seq::filter);
    reveal_with_fuel(Seq::filter, 2);
    assert(seq![flag].drop_last() =~= none);
    assert(seq![flag].filter(known_5) =~= if unknown_to_v0_5_0(flag) {
        none
    } else {
        seq![flag]
    });
    assert(seq![flag].filter(known_6) =~= if unknown_to_v0_6_0(flag) {
        none
    } else {
        seq![flag]
    });
    let named = seq![v0_5_0_name(flag)];
    assert(named.drop_last() =~= none);
    assert(named.filter(known_6) =~= if unknown_to_v0_6_0(v0_5_0_name(flag)) {
        none
    } else {
        named
    });
    assert(none.map_values(rename) =~= none);
    assert(none.filter(known_6) =~= none);
    assert(seq![flag].map_values(rename) =~= named);
}

/// The flags that are dropped are those whose names are listed.
proof fn lemma_unknown_flags(flag: Seq<char>)
    ensures
        unknown_to_v0_5_0(flag) == came_after_v0_5_0(flag),
        unknown_to_v0_6_0(flag) == is_option(flag, "--validator"@),
{
    let all = flags_added_after_v0_5_0();
    law_flag_has_a_name_and_a_value(flag, all[0]);
    law_flag_has_a_name_and_a_value(flag, all[1]);
    law_flag_has_a_name_and_a_value(flag, all[2]);
    law_flag_has_a_name_and_a_value(flag, all[3]);
    law_flag_has_a_name_and_a_value(flag, all[4]);
    law_flag_has_a_name_and_a_value(flag, all[5]);
    law_flag_has_a_name_and_a_value(flag, all[6]);
    law_flag_has_a_name_and_a_value(flag, all[7]);
    law_flag_has_a_name_and_a_value(flag, all[8]);
    law_flag_has_a_name_and_a_value(flag, all[9]);
    law_flag_has_a_name_and_a_value(flag, all[10]);
    law_flag_has_a_name_and_a_value(flag, all[11]);
    law_flag_has_a_name_and_a_value(flag, "--validator"@);
    if unknown_to_v0_5_0(flag) {
        let i = choose|i: int| 0 <= i < all.len() && is_flag(flag, #[trigger] all[i]);
        law_flag_has_a_name_and_a_value(flag, all[i]);
    }
}

/// A pruning flag with a value is known under its former name.
proof fn lemma_pruning_flags(value: Seq<char>)
    ensures
        !unknown_to_v0_5_0("--prune.certificates.distance="@ + value),
        !unknown_to_v0_5_0("--prune.certificates.before="@ + value),
        v0_5_0_name("--prune.certificates.distance="@ + value) == "--pruning.block-interval="@
            + value,
        v0_5_0_name("--prune.certificates.before="@ + value) == "--pruning.min-height="@ + value,
        !unknown_to_v0_6_0("--pruning.block-interval="@ + value),
        !unknown_to_v0_6_0("--pruning.min-height="@ + value),
{
    reveal_strlit("--prune.certificates.distance");
    reveal_strlit("--prune.certificates.distance=");
    reveal_strlit("--prune.certificates.before");
    reveal_strlit("--prune.certificates.before=");
    reveal_strlit("--pruning.block-interval");
    reveal_strlit("--pruning.block-interval=");
    reveal_strlit("--pruning.min-height");
    reveal_strlit("--pruning.min-height=");
    reveal_strlit("--validator");
    reveal_strlit("--log-level");
    reveal_strlit("--log-format");
    reveal_strlit("--p2p.persistent-peers-only");
    reveal_strlit("--gossipsub.explicit-peering");
    reveal_strlit("--gossipsub.mesh-prioritization");
    reveal_strlit("--gossipsub.load");
    reveal_strlit("--execution-persistence-backpressure");
    reveal_strlit("--execution-persistence-backpressure-threshold");
    reveal_strlit("--execution-ws-endpoint");
    reveal_strlit("--full");
    reveal_strlit("--minimal");
    reveal_strlit("--pprof.heap-prof");
    let distance = "--prune.certificates.distance="@ + value;
    let before = "--prune.certificates.before="@ + value;
    assert(distance[2] == 'p' && distance[3] == 'r' && before[2] == 'p' && before[3] == 'r');
    assert forall|i: int| 0 <= i < flags_added_after_v0_5_0().len() implies !is_flag(
        distance,
        #[trigger] flags_added_after_v0_5_0()[i],
    ) && !is_flag(before, flags_added_after_v0_5_0()[i]) by {
        let name = flags_added_after_v0_5_0()[i];
        assert(name.len() > 3 && (name[2] != 'p' || name[3] != 'r'));
        if is_flag(distance, name) {
            assert(distance[2] == name[2] && distance[3] == name[3]);
        }
        if is_flag(before, name) {
            assert(before[2] == name[2] && before[3] == name[3]);
        }
    }
    let n = "--prune.certificates.distance"@;
    assert(distance.subrange(0, n.len() as int) =~= n);
    assert(n.is_prefix_of(distance));
    assert(distance[n.len() as int] == '=');
    assert("--pruning.block-interval"@ + distance.skip(n.len() as int)
        =~= "--pruning.block-interval="@ + value);
    let m = "--prune.certificates.before"@;
    assert(before.subrange(0, m.len() as int) =~= m);
    assert(m.is_prefix_of(before));
    assert(before[m.len() as int] == '=');
    assert(before[21] == 'b' && n[21] == 'd');
    assert(!n.is_prefix_of(before)) by {
        if n.is_prefix_of(before) {
            assert(before.subrange(0, n.len() as int)[21] == n[21]);
        }
    }
    assert("--pruning.min-height"@ + before.skip(m.len() as int) =~= "--pruning.min-height="@
        + value);
    let interval = "--pruning.block-interval="@ + value;
    let height = "--pruning.min-height="@ + value;
    assert(interval[2] == 'p' && height[2] == 'p' && "--validator"@[2] == 'v');
    assert(!is_flag(interval, "--validator"@)) by {
        if is_flag(interval, "--validator"@) {
            assert(interval[2] == "--validator"@[2]);
        }
    }
    assert(!is_flag(height, "--validator"@)) by {
        if is_flag(height, "--validator"@) {
            assert(height[2] == "--validator"@[2]);
        }
    }
}

/// A flag that is no pruning flag with a value keeps its name.
proof fn lemma_other_flags_keep_their_name(flag: Seq<char>)
    ensures
        !"--prune.certificates.distance="@.is_prefix_of(flag)
            && !"--prune.certificates.before="@.is_prefix_of(flag) ==> v0_5_0_name(flag) == flag,
        v0_5_0_name(flag) != flag ==> !unknown_to_v0_6_0(v0_5_0_name(flag)),
        unknown_to_v0_6_0(flag) ==> v0_5_0_name(flag) == flag,
{
    reveal_strlit("--prune.certificates.distance");
    reveal_strlit("--prune.certificates.distance=");
    reveal_strlit("--prune.certificates.before");
    reveal_strlit("--prune.certificates.before=");
    reveal_strlit("--pruning.block-interval");
    reveal_strlit("--pruning.min-height");
    reveal_strlit("--validator");
    let n = "--prune.certificates.distance"@;
    let m = "--prune.certificates.before"@;
    let named = v0_5_0_name(flag);
    if named != flag {
        let name = if n.is_prefix_of(flag) {
            n
        } else {
            m
        };
        let with_sign = name.push('=');
        assert(flag.subrange(0, name.len() as int) =~= name);
        assert(flag.subrange(0, with_sign.len() as int) =~= with_sign) by {
            assert forall|i: int| 0 <= i < with_sign.len() implies flag.subrange(
                0,
                with_sign.len() as int,
            )[i] == with_sign[i] by {
                if i < name.len() {
                    assert(flag.subrange(0, name.len() as int)[i] == name[i]);
                }
            }
        }
        assert("--prune.certificates.distance="@ =~= n.push('='));
        assert("--prune.certificates.before="@ =~= m.push('='));
        assert(with_sign.is_prefix_of(flag));
        assert(named[2] == 'p' && "--validator"@[2] == 'v');
        assert(flag[2] == flag.subrange(0, name.len() as int)[2]);
        if is_flag(named, "--validator"@) {
            assert(named[2] == "--validator"@[2]);
        }
        if is_flag(flag, "--validator"@) {
            assert(flag[2] == "--validator"@[2]);
        }
    }
}

/// For a target after v0.5.0, the list is exactly the given one, without
/// `--validator` in either form where the target is not after v0.6.0.
pub proof fn law_only_validator_is_dropped_after_v0_5_0(flags: Seq<Seq<char>>, version: Version)
    requires
        !up_to_v0_5_0(version),
    ensures
        compat_flags(flags, Some(version)) == (if up_to_v0_6_0(version) {
            flags.filter(|f: Seq<char>| !is_option(f, "--validator"@))
        } else {
            flags
        }),
    decreases flags.len(),
{
    let kept = |f: Seq<char>| !is_option(f, "--validator"@);
    reveal(Seq::filter);
    if flags.len() == 0 {
        law_flags_are_rewritten_one_by_one(flags, flags, Some(version));
        assert(flags =~= Seq::<Seq<char>>::empty());
    } else {
        let shorter = flags.drop_last();
        let last = flags.last();
        law_only_validator_is_dropped_after_v0_5_0(shorter, version);
        law_flags_are_rewritten_one_by_one(shorter, seq![last], Some(version));
        law_what_a_flag_becomes(last, version, Seq::<char>::empty());
        assert(shorter + seq![last] =~= flags);
        let none = Seq::<Seq<char>>::empty();
        assert(shorter.filter(kept) + none =~= shorter.filter(kept));
        assert(shorter.filter(kept) + seq![last] =~= shorter.filter(kept).push(last));
    }
}

/// No target changes a flag: neither dropped nor renamed, nor what a flag is renamed to.
pub open spec fn is_untouched(flag: Seq<char>) -> bool {
    &&& !is_option(flag, "--validator"@)
    &&& !came_after_v0_5_0(flag)
    &&& !"--prune.certificates.distance="@.is_prefix_of(flag)
    &&& !"--prune.certificates.before="@.is_prefix_of(flag)
    &&& !"--pruning.block-interval="@.is_prefix_of(flag)
    &&& !"--pruning.min-height="@.is_prefix_of(flag)
}

/// Nothing else is lost: for every target, the flags that no target changes are all
/// there afterwards, as often as before and in the same order.
pub proof fn law_untouched_flags_stay(flags: Seq<Seq<char>>, version: Version)
    ensures
        compat_flags(flags, Some(version)).filter(|f: Seq<char>| is_untouched(f)) == flags.filter(
            |f: Seq<char>| is_untouched(f),
        ),
    decreases flags.len(),
{
    let untouched = |f: Seq<char>| is_untouched(f);
    reveal(Seq::filter);
    if flags.len() == 0 {
        law_flags_are_rewritten_one_by_one(flags, flags, Some(version));
        assert(flags =~= Seq::<Seq<char>>::empty());
    } else {
        let shorter = flags.drop_last();
        let last = flags.last();
        let single = compat_flags(seq![last], Some(version));
        law_untouched_flags_stay(shorter, version);
        law_flags_are_rewritten_one_by_one(shorter, seq![last], Some(version));
        assert(shorter + seq![last] =~= flags);
        lemma_filter_adds(compat_flags(shorter, Some(version)), single, untouched);
        lemma_filter_adds(shorter, seq![last], untouched);
        reveal_with_fuel(Seq::filter, 2);
        let none = Seq::<Seq<char>>::empty();
        assert(single.filter(untouched) == seq![last].filter(untouched)) by {
            lemma_single_untouched(last, version);
            assert(none.filter(untouched) =~= none);
            assert(seq![last].drop_last() =~= none);
            if single.len() == 1 {
                assert(single =~= seq![single[0]]);
                assert(seq![single[0]].drop_last() =~= none);
            } else {
                assert(single =~= none);
            }
        }
    }
}

/// A flag that no target changes is there afterwards, and what becomes of another
/// is no such flag.
proof fn lemma_single_untouched(flag: Seq<char>, version: Version)
    ensures
        ({
            let single = compat_flags(seq![flag], Some(version));
            &&& single.len() <= 1
            &&& is_untouched(flag) ==> single == seq![flag]
            &&& !is_untouched(flag) && single.len() == 1 ==> !is_untouched(single[0])
        }),
{
    law_what_a_flag_becomes(flag, version, Seq::<char>::empty());
    lemma_single_flag(flag, version);
    let n = "--prune.certificates.distance="@;
    let m = "--prune.certificates.before="@;
    if n.is_prefix_of(flag) {
        let value = flag.skip(n.len() as int);
        assert(flag =~= n + value) by {
            assert(flag.subrange(0, n.len() as int) =~= n);
            assert forall|i: int| 0 <= i < flag.len() implies flag[i] == (n + value)[i] by {
                if i < n.len() {
                    assert(flag.subrange(0, n.len() as int)[i] == n[i]);
                }
            }
        }
        law_what_a_flag_becomes(flag, version, value);
        let former = "--pruning.block-interval="@ + value;
        assert(former.subrange(0, "--pruning.block-interval="@.len() as int)
            =~= "--pruning.block-interval="@);
        assert(!is_untouched(former));
    } else if m.is_prefix_of(flag) {
        let value = flag.skip(m.len() as int);
        assert(flag =~= m + value) by {
            assert(flag.subrange(0, m.len() as int) =~= m);
            assert forall|i: int| 0 <= i < flag.len() implies flag[i] == (m + value)[i] by {
                if i < m.len() {
                    assert(flag.subrange(0, m.len() as int)[i] == m[i]);
                }
            }
        }
        law_what_a_flag_becomes(flag, version, value);
        let former = "--pruning.min-height="@ + value;
        assert(former.subrange(0, "--pruning.min-height="@.len() as int)
            =~= "--pruning.min-height="@);
        assert(!is_untouched(former));
    }
}

/// Whatever the image is, the message names it first, and says what is wrong with it behind.
pub proof fn law_rejection_names_the_image(image: Seq<char>)
    ensures
        ("arc-node-consensus image '"@ + image).is_prefix_of(unsupported_message(image)),
        unsupported_message(image).skip(("arc-node-consensus image '"@ + image).len() as int)
            == "' predates v0.5.0; releases before v0.5.0 require a config.toml that Quake no longer generates. Pin v0.5.0 or newer."@,
{
    let start = "arc-node-consensus image '"@ + image;
    let message = unsupported_message(image);
    assert(message.subrange(0, start.len() as int) =~= start);
    assert(message.skip(start.len() as int)
        =~= "' predates v0.5.0; releases before v0.5.0 require a config.toml that Quake no longer generates. Pin v0.5.0 or newer."@);
}

} // verus!

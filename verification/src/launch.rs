//! Starting the managed product: the arguments that it is started with.
use vstd::prelude::*;
use vstd::string::*;
use crate::config::{ProfileConfig, ProfileView};
use crate::text::{char_is_whitespace, chars_of, is_whitespace, strings_view, substring};

verus! {

/// The first position at or after `from` that holds white space, or the
/// length of `s` where none follows.
pub open spec fn word_end(s: Seq<char>, from: int) -> int
    decreases s.len() - from,
{
    if 0 <= from < s.len() && !is_whitespace(s[from]) {
        word_end(s, from + 1)
    } else {
        from
    }
}

/// Whether a word starts at `at`: the character there is no white space,
/// and the one before it, if there is one, is.
pub open spec fn starts_word(s: Seq<char>, at: int) -> bool {
    0 <= at < s.len() && !is_whitespace(s[at]) && (at == 0 || is_whitespace(s[at - 1]))
}

/// The words of `s` that start at or after `from`, in order. A word is a
/// longest run of characters that are not white space.
pub open spec fn words_from(s: Seq<char>, from: int) -> Seq<Seq<char>>
    decreases s.len() - from,
{
    if from < 0 || from >= s.len() {
        Seq::empty()
    } else if starts_word(s, from) {
        seq![s.subrange(from, word_end(s, from))] + words_from(s, from + 1)
    } else {
        words_from(s, from + 1)
    }
}

/// The words of `s`.
pub open spec fn words(s: Seq<char>) -> Seq<Seq<char>> {
    words_from(s, 0)
}

/// The words of `text`: what white space separates.
pub fn split_words(text: &str) -> (found: Vec<String>)
    ensures
        strings_view(found) == words(text@),
{
    let v = chars_of(text);
    let mut found: Vec<String> = Vec::new();
    let mut i: usize = 0;
    assert(strings_view(found) =~= Seq::<Seq<char>>::empty());
    while i < v.len()
        invariant
            i <= v.len(),
            v@ == text@,
            strings_view(found) + words_from(v@, i as int) == words(v@),
        decreases v.len() - i,
    {
        let ghost before = strings_view(found);
        if !char_is_whitespace(v[i]) && (i == 0 || char_is_whitespace(v[i - 1])) {
            let mut end: usize = i;
            while end < v.len() && !char_is_whitespace(v[end])
                invariant
                    i <= end <= v.len(),
                    word_end(v@, i as int) == word_end(v@, end as int),
                decreases v.len() - end,
            {
                end += 1;
            }
            found.push(substring(text, i, end));
            assert(strings_view(found) =~= before + seq![v@.subrange(i as int, end as int)]);
            assert(before + (seq![v@.subrange(i as int, end as int)] + words_from(v@, i + 1))
                =~= (before + seq![v@.subrange(i as int, end as int)]) + words_from(v@, i + 1));
        }
        i += 1;
    }
    assert(strings_view(found) + Seq::<Seq<char>>::empty() =~= strings_view(found));
    found
}

/// The arguments that the managed product is started with for a profile
/// whose settings file is at `settings_path`.
///
/// The settings file is named, and the product's own update check is
/// switched off. With automatic login the login screen is skipped, and the
/// character played last is named where one is known. The profile's
/// additional arguments follow, word by word.
pub open spec fn launch_args(profile: ProfileView, settings_path: Seq<char>) -> Seq<Seq<char>> {
    let fixed = seq!["-settings"@, settings_path, "-skipupdatecheck"@];
    let login = if profile.settings.auto_login {
        if profile.index.last_character_name.len() > 0 {
            seq!["-skiploginscreen"@, "-lastcharactername"@, profile.index.last_character_name]
        } else {
            seq!["-skiploginscreen"@]
        }
    } else {
        Seq::empty()
    };
    fixed + login + words(profile.index.additional_args)
}

/// The arguments that the managed product is started with for `profile`,
/// whose settings file is at `settings_path`.
pub fn launch_arguments(profile: &ProfileConfig, settings_path: &str) -> (args: Vec<String>)
    ensures
        strings_view(args) == launch_args(profile@, settings_path@),
{
    let mut args: Vec<String> = Vec::new();
    args.push("-settings".to_string());
    args.push(settings_path.to_string());
    args.push("-skipupdatecheck".to_string());
    let ghost fixed = seq!["-settings"@, settings_path@, "-skipupdatecheck"@];
    assert(strings_view(args) =~= fixed);
    let ghost login = Seq::<Seq<char>>::empty();
    if profile.settings.auto_login {
        args.push("-skiploginscreen".to_string());
        proof {
            login = seq!["-skiploginscreen"@];
        }
        if !profile.index.last_character_name.as_str().is_empty() {
            args.push("-lastcharactername".to_string());
            args.push(profile.index.last_character_name.clone());
            proof {
                login = seq![
                    "-skiploginscreen"@,
                    "-lastcharactername"@,
                    profile.index.last_character_name@,
                ];
            }
        }
    }
    assert(strings_view(args) =~= fixed + login);
    let extra = split_words(profile.index.additional_args.as_str());
    let mut i: usize = 0;
    while i < extra.len()
        invariant
            i <= extra.len(),
            strings_view(args) == fixed + login + strings_view(extra).take(i as int),
        decreases extra.len() - i,
    {
        let ghost before = strings_view(args);
        args.push(extra[i].clone());
        assert(strings_view(args) =~= before.push(extra@[i as int]@));
        assert(strings_view(extra).take(i + 1) =~= strings_view(extra).take(i as int).push(
            extra@[i as int]@,
        ));
        i += 1;
    }
    assert(strings_view(extra).take(i as int) =~= strings_view(extra));
    args
}

} // verus!

//! The restore token that the portal hands out, between one run and the next.
use crate::text;
use vstd::prelude::*;

verus! {

/// The path `rel`, which is relative, below the directory `base`, as bytes.
pub open spec fn below(base: Seq<u8>, rel: Seq<char>) -> Seq<u8> {
    if base.len() > 0 && base.last() != 0x2f {
        base.push(0x2f) + vstd::utf8::encode_utf8(rel)
    } else {
        base + vstd::utf8::encode_utf8(rel)
    }
}

/// The user's state directory: `$XDG_STATE_HOME`, or `~/.local/state` where that is unset or
/// empty.
pub open spec fn state_dir(xdg_state_home: Option<Seq<u8>>, home: Option<Seq<u8>>) -> Option<
    Seq<u8>,
> {
    match (xdg_state_home, home) {
        (Some(dir), _) if dir.len() > 0 => Some(dir),
        (_, Some(dir)) => Some(below(dir, ".local/state"@)),
        _ => None,
    }
}

/// Where the portal's restore token lives between runs.
pub open spec fn token_file(xdg_state_home: Option<Seq<u8>>, home: Option<Seq<u8>>) -> Option<
    Seq<u8>,
> {
    match state_dir(xdg_state_home, home) {
        Some(dir) => Some(below(dir, "pixelflux/portal-restore-token"@)),
        None => None,
    }
}

/// The token in a file that holds `contents`: what is left without the white space round it.
pub open spec fn token_in(contents: Seq<char>) -> Option<Seq<char>> {
    if text::trimmed(contents).len() > 0 {
        Some(text::trimmed(contents))
    } else {
        None
    }
}

/// The bytes of an optional environment variable.
pub open spec fn bytes_of(value: Option<&[u8]>) -> Option<Seq<u8>> {
    match value {
        Some(bytes) => Some(bytes@),
        None => None,
    }
}

/// The path `rel`, which is relative, below the directory `base`.
fn join(base: &[u8], rel: &str) -> (path: Vec<u8>)
    ensures
        path@ == below(base@, rel@),
{
    let mut path: Vec<u8> = Vec::new();
    path.extend_from_slice(base);
    assert(path@ =~= base@);
    if base.len() > 0 && base[base.len() - 1] != 0x2f {
        path.push(0x2f);
    }
    let ghost head = path@;
    let tail: &[u8] = rel.as_bytes();
    path.extend_from_slice(tail);
    assert(path@ =~= head + tail@);
    path
}

/// Where the portal's restore token lives between runs: `$XDG_STATE_HOME/pixelflux`, or
/// `~/.local/state/pixelflux` in its absence; nowhere where there is no home either.
pub fn token_path(xdg_state_home: Option<&[u8]>, home: Option<&[u8]>) -> (path: Option<Vec<u8>>)
    ensures
        match path {
            Some(p) => token_file(bytes_of(xdg_state_home), bytes_of(home)) == Some(p@),
            None => token_file(bytes_of(xdg_state_home), bytes_of(home)) is None,
        },
{
    if let Some(dir) = xdg_state_home {
        if dir.len() > 0 {
            return Some(join(dir, "pixelflux/portal-restore-token"));
        }
    }
    match home {
        Some(dir) => {
            let base: Vec<u8> = join(dir, ".local/state");
            Some(join(base.as_slice(), "pixelflux/portal-restore-token"))
        },
        None => None,
    }
}

/// The restore token saved by an earlier session, if any: `contents` is what the token's file
/// holds, where it could be read.
pub fn saved_restore_token(contents: Option<&str>) -> (token: Option<String>)
    ensures
        match (contents, token) {
            (Some(c), Some(t)) => token_in(c@) == Some(t@),
            (Some(c), None) => token_in(c@) is None,
            (None, Some(_)) => false,
            (None, None) => true,
        },
{
    match contents {
        Some(c) => {
            let token: String = text::trim(c);
            if token.as_str().is_empty() {
                None
            } else {
                Some(token)
            }
        },
        None => None,
    }
}

/// A token that neither starts nor ends with white space is read back as it was saved.
pub proof fn saved_token_is_read_back(token: Seq<char>)
    requires
        token.len() > 0,
        !text::white_space(token[0]),
        !text::white_space(token.last()),
    ensures
        token_in(token) == Some(token),
{
    text::bare_is_kept(token);
}

/// A token that was read, saved again and read again is the same: what is read is bare.
pub proof fn reading_settles(contents: Seq<char>)
    requires
        token_in(contents) is Some,
    ensures
        token_in(token_in(contents)->0) == token_in(contents),
{
    text::trimmed_is_bare(contents);
    text::bare_is_kept(text::trimmed(contents));
}

/// The token's file is the same whatever the home directory is, where the state directory is
/// given.
pub proof fn state_home_wins(xdg_state_home: Seq<u8>, home: Option<Seq<u8>>)
    requires
        xdg_state_home.len() > 0,
    ensures
        token_file(Some(xdg_state_home), home) == Some(
            below(xdg_state_home, "pixelflux/portal-restore-token"@),
        ),
{
}

} // verus!

use vstd::prelude::*;

verus! {

/// The directories, under the per-user low-trust data directory, that hold the tool.
pub const TOOLS_DIR_PARTS: [&'static str; 3] = ["VRChat", "VRChat", "Tools"];

/// The genuine tool, as downloaded.
pub const ORIGINAL_FILE: &'static str = "yt-dlp-original.exe";

/// The slot that the host invokes; it holds a copy of this executable.
pub const IMPERSONATED_FILE: &'static str = "yt-dlp.exe";

pub const COOKIE_FILE: &'static str = "cookies.txt";

pub const LATEST_ARGS_FILE: &'static str = "latest_args.txt";

/// Where the genuine tool's latest release is downloaded from.
pub const RELEASE_URL: &'static str = "https://github.com/yt-dlp/yt-dlp/releases/latest/download/yt-dlp.exe";

/// The exit code when the genuine tool could not be started.
pub const SPAWN_FAILED_EXIT: u8 = 1;

/// The arguments handed to the genuine tool: the caller's own, then the
/// browser to take cookies from and the cookie file.
pub open spec fn forwarded(args: Seq<Seq<char>>, cookie_path: Seq<char>) -> Seq<Seq<char>> {
    args + seq!["--cookies-from-browser"@, "firefox"@, "--cookies"@, cookie_path]
}

pub open spec fn strings_view(v: Seq<String>) -> Seq<Seq<char>> {
    v.map_values(|s: String| s@)
}

pub fn forwarded_args(args: &Vec<String>, cookie_path: &String) -> (r: Vec<String>)
    ensures
        strings_view(r@) == forwarded(strings_view(args@), cookie_path@),
{
    let mut r: Vec<String> = Vec::new();
    let mut i: usize = 0;
    while i < args.len()
        invariant
            i <= args@.len(),
            r@.len() == i,
            forall|j: int| 0 <= j < i ==> #[trigger] r@[j]@ == args@[j]@,
        decreases args@.len() - i,
    {
        r.push(args[i].clone());
        i = i + 1;
    }
    r.push("--cookies-from-browser".to_string());
    r.push("firefox".to_string());
    r.push("--cookies".to_string());
    r.push(cookie_path.clone());
    proof {
        reveal_strlit("--cookies-from-browser");
        reveal_strlit("firefox");
        reveal_strlit("--cookies");
    }
    assert(strings_view(r@) =~= forwarded(strings_view(args@), cookie_path@));
    r
}

/// The process exit code for the genuine tool's exit status: its code, held
/// to 0..=255 (a negative code gives 1); 2 when it ended without a code.
pub open spec fn exit_code_of(code: Option<i32>) -> u8 {
    match code {
        None => 2,
        Some(c) => if c > 255 {
            255
        } else if c < 0 {
            1
        } else {
            c as u8
        },
    }
}

pub fn exit_code(code: Option<i32>) -> (r: u8)
    ensures
        r == exit_code_of(code),
{
    match code {
        None => 2,
        Some(c) => if c > 255 {
            255
        } else if c < 0 {
            1
        } else {
            c as u8
        },
    }
}

} // verus!

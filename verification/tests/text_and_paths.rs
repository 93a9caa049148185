use ani_dl::download::playlist::extinf_entries;
use ani_dl::paths::{file_name, join, with_added_extension, with_extension};
use ani_dl::text::{decimal_string, parse_u32, parse_u64, str_eq};
use std::path::{Path, PathBuf};

#[test]
fn parse_u32_matches_std() {
    let cases = [
        "0", "7", "42", "+5", "+", "", "-1", "-0", "007", "4294967295", "4294967296",
        "99999999999", "12a", " 1", "1 ", "٣", "++1", "+-1", "１",
    ];
    for c in cases {
        assert_eq!(parse_u32(c), c.parse::<u32>().ok(), "case {:?}", c);
    }
}

#[test]
fn parse_u64_matches_std() {
    let cases = [
        "0", "18446744073709551615", "18446744073709551616", "+18446744073709551615", "12",
        "1e3", "N/A", "",
    ];
    for c in cases {
        assert_eq!(parse_u64(c), c.parse::<u64>().ok(), "case {:?}", c);
    }
}

#[test]
fn decimal_round_trip() {
    for n in [0u64, 1, 9, 10, 99, 100, 12345, u64::MAX] {
        let s = decimal_string(n);
        assert_eq!(s, n.to_string());
        assert_eq!(parse_u64(&s), Some(n));
    }
}

#[test]
fn str_eq_compares_characters() {
    assert!(str_eq("kodik", "kodik"));
    assert!(!str_eq("kodik", "Kodik"));
    assert!(!str_eq("kodik", "kodi"));
    assert!(str_eq("", ""));
}

fn std_join(a: &str, b: &str) -> String {
    Path::new(a).join(b).to_string_lossy().to_string()
}

const PATHS: [&str; 22] = [
    "", "/", ".", "..", "a", "a/", "a//", "/a", "a/b", "a/b/", "a/./", "a/.", "./a", "./",
    "a/..", "a.txt", ".bashrc", "a/b.tar.gz", "a/b.txt/", "EP01 - Dr. Stone", "x/.hidden.mp4",
    "/tmp/EP05",
];

#[test]
fn join_matches_std() {
    for a in PATHS {
        for b in ["", "x", "x/y", "/abs", "EP01 - name"] {
            assert_eq!(join(a, b), std_join(a, b), "join({:?}, {:?})", a, b);
        }
    }
}

#[test]
fn file_name_matches_std() {
    for p in PATHS {
        let expected = Path::new(p).file_name().map(|n| n.to_string_lossy().to_string());
        assert_eq!(file_name(p), expected, "file_name({:?})", p);
    }
}

#[test]
fn with_extension_matches_std() {
    for p in PATHS {
        for e in ["mp4", "", "tmp"] {
            let expected = Path::new(p).with_extension(e).to_string_lossy().to_string();
            assert_eq!(with_extension(p, e), expected, "with_extension({:?}, {:?})", p, e);
        }
    }
}

#[test]
fn with_added_extension_cases() {
    assert_eq!(with_added_extension("out/EP01", "tmp"), "out/EP01.tmp");
    assert_eq!(with_added_extension("out/EP01 - Dr. Stone", "mp4"), "out/EP01 - Dr. Stone.mp4");
    assert_eq!(with_added_extension("a/b.txt/", "mp4"), "a/b.txt.mp4");
    assert_eq!(with_added_extension("a/b", ""), "a/b");
    assert_eq!(with_added_extension("/", "mp4"), "/");
    assert_eq!(with_added_extension("a/..", "mp4"), "a/..");
    let _ = PathBuf::new();
}

fn std_extinf(p: &str) -> Vec<String> {
    p.lines()
        .filter_map(|line| line.strip_prefix("#EXTINF:"))
        .map(|rest| rest.trim_end_matches(',').to_string())
        .collect()
}

#[test]
fn extinf_entries_match_std() {
    let cases = [
        "",
        "#EXTM3U\n#EXTINF:10.0,\nseg1.ts\n#EXTINF:5.5,\nseg2.ts\n#EXT-X-ENDLIST\n",
        "#EXTINF:4,,,\r\nseg.ts\r\n#EXTINF:3",
        "\n\n#EXTINF:\n",
        "#EXTINF:1.5,title\n#extinf:2\n #EXTINF:3\n",
        "#EXTINF:7\r",
        "#EXTINF:8\r\r\n",
    ];
    for c in cases {
        assert_eq!(extinf_entries(c), std_extinf(c), "playlist {:?}", c);
    }
}

#[test]
fn extinf_durations_add_up() {
    let playlist = "#EXTM3U\n#EXTINF:10.0,\na.ts\n#EXTINF:5.5,\nb.ts\n#EXTINF:bad,\nc.ts\n";
    let total: f64 = extinf_entries(playlist)
        .iter()
        .filter_map(|v| v.parse::<f64>().ok())
        .sum();
    assert_eq!(total, 15.5);
}

#[test]
fn filename_number_reads_back() {
    for n in [0u32, 5, 9, 10, 42, 99, 100, 4294967295] {
        let name = ani_dl::types::EpisodeFile::create_filename(&n, Some("Title"));
        assert!(name.starts_with("EP"));
        let digits: String = name[2..].chars().take_while(|c| c.is_ascii_digit()).collect();
        assert_eq!(parse_u32(&digits), Some(n));
    }
}

#[test]
fn join_keeps_name_at_end() {
    for base in ["", "/", "out", "out/", "/a/b"] {
        for name in ["EP01", "x/y", "/abs"] {
            let j = join(base, name);
            assert!(j.ends_with(name));
            if name.starts_with('/') {
                assert_eq!(j, name);
            }
        }
    }
}

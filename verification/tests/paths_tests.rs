use rusty::paths::{path_extension, path_file_name, path_stem};

#[test]
fn path_parts_follow_std_paths() {
    let cases = ["a.yml", "dir/a.yml", "dir/a.yml/", "a.yml/.", "dir/a.yml/./", "./a.yml", ".", "/.", "a/..", "", "/", ".bashrc", "x/a.tar.gz"];
    for case in cases {
        let p = std::path::Path::new(case);
        assert_eq!(
            path_file_name(case),
            p.file_name().map(|n| n.to_string_lossy().to_string()),
            "file name of {case:?}"
        );
        assert_eq!(
            path_extension(case),
            p.extension().map(|n| n.to_string_lossy().to_string()),
            "extension of {case:?}"
        );
        assert_eq!(path_stem(case), p.file_stem().map(|n| n.to_string_lossy().to_string()), "stem of {case:?}");
    }
}

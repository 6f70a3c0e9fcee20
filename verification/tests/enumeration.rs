use pixel_vim::window::{enumerate_candidates, ExclusionRuleSet, WindowInfo};

fn plain_window(handle: u64, title: &str, class_name: &str) -> WindowInfo {
    WindowInfo {
        handle,
        visible: true,
        title: title.to_string(),
        class_name: class_name.to_string(),
        captioned: true,
        tool_window: false,
        overlapped: true,
        process_id: 100,
    }
}

fn empty_rules() -> ExclusionRuleSet {
    ExclusionRuleSet {
        denied_titles: Vec::new(),
        denied_classes: Vec::new(),
        allowed_classes: Vec::new(),
        allowed_title_fragments: Vec::new(),
    }
}

fn shell_rules() -> ExclusionRuleSet {
    ExclusionRuleSet {
        denied_titles: vec!["Program Manager".to_string()],
        denied_classes: vec!["Shell_TrayWnd".to_string(), "ApplicationFrameWindow".to_string()],
        allowed_classes: vec!["ApplicationFrameWindow".to_string()],
        allowed_title_fragments: vec!["Notebook".to_string()],
    }
}

#[test]
fn keeps_enumeration_order() {
    let windows = vec![
        plain_window(10, "Editor", "EditorClass"),
        plain_window(20, "Browser", "BrowserClass"),
        plain_window(30, "Terminal", "TermClass"),
    ];
    let r = enumerate_candidates(&windows, &None, &empty_rules());
    assert_eq!(r, vec![10, 20, 30]);
}

#[test]
fn empty_snapshot_gives_empty_list() {
    let r = enumerate_candidates(&Vec::new(), &None, &shell_rules());
    assert!(r.is_empty());
}

#[test]
fn excludes_invisible_windows() {
    let mut hidden = plain_window(10, "Editor", "EditorClass");
    hidden.visible = false;
    let windows = vec![hidden, plain_window(20, "Browser", "BrowserClass")];
    let r = enumerate_candidates(&windows, &None, &empty_rules());
    assert_eq!(r, vec![20]);
}

#[test]
fn excludes_empty_title_regardless_of_class_and_style() {
    let untitled = plain_window(10, "", "PerfectlyOrdinaryClass");
    let windows = vec![untitled, plain_window(20, "Browser", "BrowserClass")];
    let r = enumerate_candidates(&windows, &None, &shell_rules());
    assert_eq!(r, vec![20]);
}

#[test]
fn excludes_denied_title() {
    let windows = vec![
        plain_window(10, "Program Manager", "Progman"),
        plain_window(20, "Browser", "BrowserClass"),
    ];
    let r = enumerate_candidates(&windows, &None, &shell_rules());
    assert_eq!(r, vec![20]);
}

#[test]
fn excludes_denied_class_regardless_of_title() {
    let windows = vec![
        plain_window(10, "A Very Honest Window", "Shell_TrayWnd"),
        plain_window(20, "Browser", "BrowserClass"),
    ];
    let r = enumerate_candidates(&windows, &None, &shell_rules());
    assert_eq!(r, vec![20]);
}

#[test]
fn excludes_tool_windows_without_override() {
    let mut tool = plain_window(10, "Palette", "ToolClass");
    tool.tool_window = true;
    let windows = vec![tool, plain_window(20, "Browser", "BrowserClass")];
    let r = enumerate_candidates(&windows, &None, &shell_rules());
    assert_eq!(r, vec![20]);
}

#[test]
fn excludes_captionless_windows_without_override() {
    let mut bare = plain_window(10, "Splash", "SplashClass");
    bare.captioned = false;
    let windows = vec![bare, plain_window(20, "Browser", "BrowserClass")];
    let r = enumerate_candidates(&windows, &None, &shell_rules());
    assert_eq!(r, vec![20]);
}

#[test]
fn excludes_windows_of_no_process() {
    let mut system = plain_window(10, "System Thing", "SysClass");
    system.process_id = 0;
    let windows = vec![system, plain_window(20, "Browser", "BrowserClass")];
    let r = enumerate_candidates(&windows, &None, &empty_rules());
    assert_eq!(r, vec![20]);
}

#[test]
fn allow_override_by_title_fragment_admits_captionless_window() {
    let mut framed = plain_window(10, "My Notebook App", "FrameHostClass");
    framed.captioned = false;
    let windows = vec![framed, plain_window(20, "Browser", "BrowserClass")];
    let r = enumerate_candidates(&windows, &None, &shell_rules());
    assert_eq!(r, vec![10, 20]);
}

#[test]
fn title_fragment_must_occur_in_title() {
    let mut framed = plain_window(10, "My Noteboo App", "FrameHostClass");
    framed.captioned = false;
    let windows = vec![framed];
    let r = enumerate_candidates(&windows, &None, &shell_rules());
    assert!(r.is_empty());
}

#[test]
fn no_duplicate_handles_for_distinct_snapshot() {
    let windows = vec![
        plain_window(10, "Editor", "EditorClass"),
        plain_window(20, "Browser", "BrowserClass"),
        plain_window(30, "Terminal", "TermClass"),
    ];
    let fg = Some(plain_window(20, "Browser", "BrowserClass"));
    let r = enumerate_candidates(&windows, &fg, &shell_rules());
    for i in 0..r.len() {
        for j in 0..r.len() {
            if i != j {
                assert_ne!(r[i], r[j]);
            }
        }
    }
    assert_eq!(r, vec![10, 20, 30]);
}

#[test]
fn foreground_already_listed_is_not_inserted_again() {
    let windows = vec![
        plain_window(10, "Editor", "EditorClass"),
        plain_window(20, "Browser", "BrowserClass"),
    ];
    let fg = Some(plain_window(20, "Browser", "BrowserClass"));
    let r = enumerate_candidates(&windows, &fg, &empty_rules());
    assert_eq!(r, vec![10, 20]);
}

#[test]
fn missing_foreground_of_true_style_is_inserted_first() {
    let windows = vec![plain_window(10, "Editor", "EditorClass")];
    // Hidden from the enumeration snapshot, but a true overlapped,
    // captioned, non-tool window: the post-pass inserts it at index 0.
    let fg = Some(plain_window(99, "Latecomer", "LateClass"));
    let r = enumerate_candidates(&windows, &fg, &empty_rules());
    assert_eq!(r, vec![99, 10]);
}

#[test]
fn foreground_excluded_by_class_with_override_is_inserted_first() {
    // The foreground window's class is denied, so the filter drops it, and
    // its style is nonstandard; but the class matches the allow-override,
    // so the post-pass still inserts it at index 0.
    let mut fg_window = plain_window(99, "Modern App", "ApplicationFrameWindow");
    fg_window.captioned = false;
    fg_window.overlapped = false;
    let windows = vec![fg_window.clone(), plain_window(10, "Editor", "EditorClass")];
    let r = enumerate_candidates(&windows, &Some(fg_window), &shell_rules());
    assert_eq!(r, vec![99, 10]);
}

#[test]
fn untitled_foreground_is_never_inserted() {
    let windows = vec![plain_window(10, "Editor", "EditorClass")];
    let fg = Some(plain_window(99, "", "LateClass"));
    let r = enumerate_candidates(&windows, &fg, &empty_rules());
    assert_eq!(r, vec![10]);
}

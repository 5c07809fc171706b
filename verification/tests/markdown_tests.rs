use blog::markdown::{box_close, code_block_header, table_box_open};

#[test]
fn code_block_header_names_the_language() {
    assert_eq!(
        code_block_header("rust"),
        "<div class=\"code-block-box\"><div class=\"code-block-header\"><span>rust</span><button class=\"code-copy-btn\" title=\"将代码复制到剪贴板\"></button></div>"
    );
}

#[test]
fn table_box_wraps_with_a_div() {
    assert_eq!(format!("{}<table></table>{}", table_box_open(), box_close()), "<div class=\"table-box\"><table></table></div>");
}

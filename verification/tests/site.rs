use client_info::Site;

#[test]
fn site_serves_the_page_at_the_root() {
    assert_eq!(Site::rocket().page_mount, "/");
}

#[test]
fn site_serves_style_sheets_under_css() {
    let site = Site::rocket();
    assert_eq!(site.asset_mount, "/css");
    assert_eq!(site.asset_dir, "static/css");
}

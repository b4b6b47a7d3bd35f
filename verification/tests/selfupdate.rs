use linear_cli::commands::update::get_asset_name;
use linear_cli::commands::update::plan_update;
use linear_cli::commands::update::strip_v;
use linear_cli::commands::update::Asset;
use linear_cli::error::Error;

fn s(t: &str) -> String {
    String::from(t)
}

fn release() -> Vec<Asset> {
    vec![
        Asset {
            name: s("linear-macos-aarch64"),
            browser_download_url: s("https://example.test/dl/mac-arm"),
        },
        Asset {
            name: s("linear-linux-x86_64"),
            browser_download_url: s("https://example.test/dl/linux-x86"),
        },
    ]
}

#[test]
fn tag_stripping_removes_leading_vs() {
    assert_eq!(strip_v("v1.2.3"), "1.2.3");
    assert_eq!(strip_v("1.2.3"), "1.2.3");
    assert_eq!(strip_v("vv2.0"), "2.0");
    assert_eq!(strip_v(""), "");
    assert_eq!(strip_v("v"), "");
}

#[test]
fn same_version_means_no_download() {
    let plan = plan_update("v1.2.3", "1.2.3", "linux", "x86_64", &release());
    assert_eq!(plan, Ok(None));
    let plan = plan_update("1.2.3", "1.2.3", "unknown", "mips", &release());
    assert_eq!(plan, Ok(None));
}

#[test]
fn newer_version_picks_the_platform_asset() {
    let plan = plan_update("v1.3.0", "1.2.3", "linux", "x86_64", &release()).unwrap().unwrap();
    assert_eq!(plan.asset_name, "linear-linux-x86_64");
    assert_eq!(plan.url, "https://example.test/dl/linux-x86");
    let plan = plan_update("v1.3.0", "1.2.3", "macos", "aarch64", &release()).unwrap().unwrap();
    assert_eq!(plan.url, "https://example.test/dl/mac-arm");
}

#[test]
fn unsupported_platform_is_reported() {
    assert_eq!(
        get_asset_name("freebsd", "riscv64"),
        Err(Error::GraphQL(s("Unsupported platform: freebsd-riscv64")))
    );
    assert_eq!(get_asset_name("linux", "aarch64"), Ok("linear-linux-aarch64"));
    let plan = plan_update("v9.9.9", "1.0.0", "windows", "x86_64", &release());
    assert_eq!(
        plan,
        Err(Error::GraphQL(s("Unsupported platform: windows-x86_64")))
    );
}

#[test]
fn missing_asset_is_reported() {
    let plan = plan_update("v9.9.9", "1.0.0", "macos", "x86_64", &release());
    assert_eq!(
        plan,
        Err(Error::GraphQL(s("No release asset found for linear-macos-x86_64")))
    );
}

#[test]
fn first_matching_asset_wins() {
    let assets = vec![
        Asset {
            name: s("linear-linux-x86_64"),
            browser_download_url: s("https://example.test/dl/first"),
        },
        Asset {
            name: s("linear-linux-x86_64"),
            browser_download_url: s("https://example.test/dl/second"),
        },
    ];
    let plan = plan_update("v2.0.0", "1.0.0", "linux", "x86_64", &assets).unwrap().unwrap();
    assert_eq!(plan.url, "https://example.test/dl/first");
}

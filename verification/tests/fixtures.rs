use oxc_codegen::fixtures::{
    binder_ts, cal_com_tsx, offline_fixture, react_development_js, BINDER_BLOCKS, CAL_COM_BLOCKS,
    RADIX_UI_ADOPTION_SECTION, REACT_DEVELOPMENT_BLOCKS,
};
use oxc_codegen::number::decimal_text;

#[test]
fn samples_go_by_their_names() {
    assert_eq!(
        offline_fixture("RadixUIAdoptionSection.jsx").as_deref(),
        Some(RADIX_UI_ADOPTION_SECTION)
    );
    assert_eq!(offline_fixture("react.development.js"), Some(react_development_js()));
    assert_eq!(offline_fixture("cal.com.tsx"), Some(cal_com_tsx()));
    assert_eq!(offline_fixture("binder.ts"), Some(binder_ts()));
    assert_eq!(offline_fixture("binder.js"), None);
    assert_eq!(offline_fixture(""), None);
}

#[test]
fn component_sample_is_whole() {
    let text = RADIX_UI_ADOPTION_SECTION;
    assert_eq!(text.len(), 1569);
    assert!(text.starts_with("import * as React from 'react';\nconst highlights = [\n"));
    assert!(text.ends_with("highlights.map(item => ({ ...item })), []);\n}\n"));
    assert!(text.contains("    <section data-component=\"radix-ui-adoption\">\n"));
}

#[test]
fn react_sample_numbers_its_blocks() {
    let text = react_development_js();
    assert_eq!(REACT_DEVELOPMENT_BLOCKS, 2560);
    assert_eq!(text.len(), 1_502_807);
    assert!(text.starts_with("// Offline React development fixture for benchmarks.\n"));
    assert!(text.contains("}\nexport function Component0(props) {\n  const [getValue"));
    assert!(text.contains("    ['data-component']: `component-17`\n  }, undefined, entries);\n}\nComponent17.defaultProps = { role: 'region' };\nexport function Component18(props) {\n"));
    assert!(text.ends_with("entries);\n}\nComponent2559.defaultProps = { role: 'region' };\n"));
    assert!(!text.contains("Component2560"));
}

#[test]
fn calendar_sample_numbers_its_blocks() {
    let text = cal_com_tsx();
    assert_eq!(CAL_COM_BLOCKS, 640);
    assert_eq!(text.len(), 987_636);
    assert!(text.starts_with("import { useEffect, useMemo, useState } from 'react';\ntype Slot<T = Date> = {\n"));
    assert!(text.contains("export function CalendarView639<T extends Slot>(props: CalendarProps<T>) {\n"));
    assert!(text.ends_with("      </ul>\n    </section>\n  );\n}\n"));
}

#[test]
fn binder_sample_numbers_its_blocks() {
    let text = binder_ts();
    assert_eq!(BINDER_BLOCKS, 2048);
    assert_eq!(text.len(), 1_176_954);
    assert!(text.contains("export interface Declaration2047 {\n  name: string;"));
    assert!(text.contains("export function bindDeclaration100(root: BinderNode, decl: Declaration100) {\n"));
    assert!(text.ends_with("    bindChild(scope, node);\n  }\n}\n"));
}

#[test]
fn decimal_text_of_numbers() {
    assert_eq!(decimal_text(0), b"0");
    assert_eq!(decimal_text(7), b"7");
    assert_eq!(decimal_text(2560), b"2560");
    assert_eq!(decimal_text(u64::MAX), b"18446744073709551615");
}

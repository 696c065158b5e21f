//! Sample sources for measurements that need no network: a few files of each kind of
//! source, made of a head and of blocks that differ only in their number.

use crate::fast_buffer::FastBuffer;
use crate::number::{decimal_digits, decimal_text, lemma_decimal_digits_ascii};
use crate::text::str_equal;
use vstd::prelude::*;
use vstd::string::StringSliceAdditionalSpecFns;
use vstd::utf8::*;

verus! {

/// A component with a list that opens and closes, in JSX.
pub const RADIX_UI_ADOPTION_SECTION: &'static str = r#"import * as React from 'react';
const highlights = [
  { title: 'Accessible', description: 'Radix primitives embrace accessibility by default.' },
  { title: 'Composable', description: 'APIs stay close to platform primitives for ergonomic composition.' },
  { title: 'Themeable', description: 'Design tokens and CSS variables make customization straightforward.' },
];

export function RadixUIAdoptionSection() {
  const [expanded, setExpanded] = React.useState(null);
  const toggle = React.useCallback(title => {
    setExpanded(prev => (prev === title ? null : title));
  }, []);
  return (
    <section data-component="radix-ui-adoption">
      <header>
        <h1>Build with confidence</h1>
        <p>Modern teams ship fast with Radix primitives.</p>
      </header>
      <ul>
        {highlights.map(highlight => (
          <li key={highlight.title}>
            <button
              type="button"
              aria-expanded={expanded === highlight.title}
              onClick={() => toggle(highlight.title)}
            >
              <span>{highlight.title}</span>
            </button>
            {expanded === highlight.title ? (
              <article>
                <p>{highlight.description}</p>
                <footer>
                  <a href="https://www.radix-ui.com">Explore Radix UI</a>
                </footer>
              </article>
            ) : null}
          </li>
        ))}
      </ul>
    </section>
  );
}

export function useRadixHighlights() {
  return React.useMemo(() => highlights.map(item => ({ ...item })), []);
}
"#;

/// A small stand-in for a development build of React, in JavaScript. This is what stands before its blocks.
pub const REACT_DEVELOPMENT_HEAD: &'static str = r#"// Offline React development fixture for benchmarks.
const REACT_ELEMENT_TYPE = Symbol.for('react.element');
export const Fragment = Symbol.for('react.fragment');
export function jsx(type, config, maybeKey, ...children) {
  const props = { ...config };
  props.children = children.length === 1 ? children[0] : children;
  return { $$typeof: REACT_ELEMENT_TYPE, type, key: maybeKey ?? null, ref: null, props };
}
export { jsx as jsxs, jsx as jsxDEV };
export function useState(initial) {
  let value = typeof initial === 'function' ? initial() : initial;
  const setValue = next => {
    value = typeof next === 'function' ? next(value) : next;
    return value;
  };
  return [() => value, setValue];
}
export function useMemo(factory, deps) {
  const cache = { deps, value: factory() };
  return cache.value;
}
function identity(value) {
  return value;
}
"#;

/// One block of `react.development.js`: what stands before the first number.
pub const REACT_DEVELOPMENT_A: &'static str = r#"export function Component"#;

/// One block of `react.development.js`: what stands between two numbers.
pub const REACT_DEVELOPMENT_B: &'static str = r#"(props) {
  const [getValue, setValue] = useState(() => props.seed ?? 0);
  const derived = useMemo(() => ({
    id: props.id ?? getValue(),
    label: props.label ?? 'component',
  }), [props.id, props.label]);
  if (props.onRender) {
    props.onRender(derived);
  }
  const entries = [];
  for (let j = 0; j < 4; j += 1) {
    entries.push(identity({ index: j, derived }));
  }
  return jsx('section', {
    role: props.role ?? 'region',
    ['data-component']: `component-"#;

/// One block of `react.development.js`: what stands between two numbers.
pub const REACT_DEVELOPMENT_C: &'static str = r#"`
  }, undefined, entries);
}
Component"#;

/// One block of `react.development.js`: what stands behind the last number.
pub const REACT_DEVELOPMENT_D: &'static str = r#".defaultProps = { role: 'region' };
"#;

/// How many blocks `react.development.js` has.
pub const REACT_DEVELOPMENT_BLOCKS: usize = 2560;

/// Views of a calendar, in TypeScript with JSX. This is what stands before its blocks.
pub const CAL_COM_HEAD: &'static str = r#"import { useEffect, useMemo, useState } from 'react';
type Slot<T = Date> = {
  id: string;
  start: T;
  end: T;
  resources: readonly string[];
};
type CalendarProps<T extends Slot> = {
  slots: readonly T[];
  timezone?: string;
  onSelect?(slot: T): void;
  renderSlot?(slot: T): JSX.Element;
};
export function useSlots<T extends Slot>(slots: readonly T[]) {
  const [filter, setFilter] = useState<string | null>(null);
  const filtered = useMemo(() => {
    if (!filter) return [...slots];
    return slots.filter(slot => slot.resources.includes(filter));
  }, [slots, filter]);
  return { filtered, filter, setFilter };
}
function formatRange(start: Date, end: Date, tz?: string) {
  const fmt = new Intl.DateTimeFormat('en', {
    hour: 'numeric', minute: '2-digit', timeZone: tz ?? 'UTC'
  });
  return `${fmt.format(start)} â€“ ${fmt.format(end)}`;
}
"#;

/// One block of `cal.com.tsx`: what stands before the first number.
pub const CAL_COM_A: &'static str = r#"export function CalendarView"#;

/// One block of `cal.com.tsx`: what stands behind the last number.
pub const CAL_COM_B: &'static str = r#"<T extends Slot>(props: CalendarProps<T>) {
  const { slots, timezone, onSelect, renderSlot } = props;
  const { filtered, filter, setFilter } = useSlots(slots);
  const [selection, setSelection] = useState<T | null>(null);
  useEffect(() => {
    if (selection && onSelect) onSelect(selection);
  }, [selection, onSelect]);
  const handleSelect = (slot: T) => {
    setSelection(slot);
  };
  const summary = useMemo(() => ({
    count: filtered.length,
    resources: Array.from(new Set(filtered.flatMap(s => s.resources)))
  }), [filtered]);
  return (
    <section data-view="cal-com">
      <header>
        <h2>Available slots</h2>
        <p>{summary.count} matches</p>
      </header>
      <div className="filters">
        <label>Resource filter</label>
        <select
          value={filter ?? ''}
          onChange={event => setFilter(event.target.value || null)}
        >
          <option value="">All resources</option>
          {summary.resources.map(resource => (
            <option key={resource}>{resource}</option>
          ))}
        </select>
      </div>
      <ul className="slots">
        {filtered.map(slot => (
          <li key={slot.id}>
            <button type="button" onClick={() => handleSelect(slot)}>
              <span>{formatRange(slot.start, slot.end, timezone)}</span>
              <small>{slot.resources.join(', ')}</small>
            </button>
            {renderSlot ? renderSlot(slot) : null}
          </li>
        ))}
      </ul>
    </section>
  );
}
"#;

/// How many blocks `cal.com.tsx` has.
pub const CAL_COM_BLOCKS: usize = 640;

/// Declarations and the functions that bind them, in TypeScript. This is what stands before its blocks.
pub const BINDER_HEAD: &'static str = r#"export type BinderSymbol = string & { readonly __binder: unique symbol };
export interface BindingFlags {
  exported: boolean;
  ambient: boolean;
  optional: boolean;
}
export interface BinderNode {
  id: BinderSymbol;
  parent?: BinderNode;
  flags: BindingFlags;
  children: BinderNode[];
}
export function createBinder(id: string, parent?: BinderNode): BinderNode {
  return {
    id: id as BinderSymbol,
    parent,
    flags: { exported: false, ambient: false, optional: false },
    children: [],
  };
}
export function bindChild(parent: BinderNode, child: BinderNode) {
  parent.children.push(child);
  child.parent = parent;
}
"#;

/// One block of `binder.ts`: what stands before the first number.
pub const BINDER_A: &'static str = r#"export interface Declaration"#;

/// One block of `binder.ts`: what stands between two numbers.
pub const BINDER_B: &'static str = r#" {
  name: string;
  members: readonly string[];
  metadata?: Record<string, unknown>;
}
export function bindDeclaration"#;

/// One block of `binder.ts`: what stands between two numbers.
pub const BINDER_C: &'static str = r#"(root: BinderNode, decl: Declaration"#;

/// One block of `binder.ts`: what stands behind the last number.
pub const BINDER_D: &'static str = r#") {
  const scope = createBinder(decl.name, root);
  scope.flags = {
    exported: decl.members.includes('export'),
    ambient: decl.members.includes('declare'),
    optional: decl.members.includes('optional'),
  };
  bindChild(root, scope);
  for (const member of decl.members) {
    const node = createBinder(`${decl.name}.${member}`, scope);
    bindChild(scope, node);
  }
}
"#;

/// How many blocks `binder.ts` has.
pub const BINDER_BLOCKS: usize = 2048;

/// The block with the number `i` of `react.development.js`.
pub open spec fn react_development_js_block(i: nat) -> Seq<u8> {
    REACT_DEVELOPMENT_A.spec_bytes() + decimal_digits(i) + REACT_DEVELOPMENT_B.spec_bytes() + decimal_digits(i) + REACT_DEVELOPMENT_C.spec_bytes() + decimal_digits(i) + REACT_DEVELOPMENT_D.spec_bytes()
}

/// The first `n` blocks of `react.development.js`.
pub open spec fn react_development_js_blocks(n: nat) -> Seq<u8>
    decreases n,
{
    if n == 0 {
        Seq::empty()
    } else {
        react_development_js_blocks((n - 1) as nat) + react_development_js_block((n - 1) as nat)
    }
}

/// The whole of `react.development.js`.
pub open spec fn react_development_js_text() -> Seq<u8> {
    REACT_DEVELOPMENT_HEAD.spec_bytes() + react_development_js_blocks(REACT_DEVELOPMENT_BLOCKS as nat)
}

/// The block with the number `i` of `cal.com.tsx`.
pub open spec fn cal_com_tsx_block(i: nat) -> Seq<u8> {
    CAL_COM_A.spec_bytes() + decimal_digits(i) + CAL_COM_B.spec_bytes()
}

/// The first `n` blocks of `cal.com.tsx`.
pub open spec fn cal_com_tsx_blocks(n: nat) -> Seq<u8>
    decreases n,
{
    if n == 0 {
        Seq::empty()
    } else {
        cal_com_tsx_blocks((n - 1) as nat) + cal_com_tsx_block((n - 1) as nat)
    }
}

/// The whole of `cal.com.tsx`.
pub open spec fn cal_com_tsx_text() -> Seq<u8> {
    CAL_COM_HEAD.spec_bytes() + cal_com_tsx_blocks(CAL_COM_BLOCKS as nat)
}

/// The block with the number `i` of `binder.ts`.
pub open spec fn binder_ts_block(i: nat) -> Seq<u8> {
    BINDER_A.spec_bytes() + decimal_digits(i) + BINDER_B.spec_bytes() + decimal_digits(i) + BINDER_C.spec_bytes() + decimal_digits(i) + BINDER_D.spec_bytes()
}

/// The first `n` blocks of `binder.ts`.
pub open spec fn binder_ts_blocks(n: nat) -> Seq<u8>
    decreases n,
{
    if n == 0 {
        Seq::empty()
    } else {
        binder_ts_blocks((n - 1) as nat) + binder_ts_block((n - 1) as nat)
    }
}

/// The whole of `binder.ts`.
pub open spec fn binder_ts_text() -> Seq<u8> {
    BINDER_HEAD.spec_bytes() + binder_ts_blocks(BINDER_BLOCKS as nat)
}

/// The sample that goes by the name `filename`, and `None` for any other name.
pub open spec fn spec_offline_fixture(filename: Seq<char>) -> Option<Seq<u8>> {
    if filename == "RadixUIAdoptionSection.jsx"@ {
        Some(RADIX_UI_ADOPTION_SECTION.spec_bytes())
    } else if filename == "react.development.js"@ {
        Some(react_development_js_text())
    } else if filename == "cal.com.tsx"@ {
        Some(cal_com_tsx_text())
    } else if filename == "binder.ts"@ {
        Some(binder_ts_text())
    } else {
        None
    }
}

/// Appends the decimal text of `i`.
fn print_number(buffer: &mut FastBuffer, i: usize)
    requires
        old(buffer).wf(),
    ensures
        final(buffer).wf(),
        final(buffer)@ == old(buffer)@ + decimal_digits(i as nat),
{
    let digits = decimal_text(i as u64);
    proof {
        lemma_decimal_digits_ascii(i as nat);
    }
    buffer.print_ascii_bytes(digits.as_slice());
}

/// `react.development.js`.
pub fn react_development_js() -> (text: String)
    ensures
        text@ == decode_utf8(react_development_js_text()),
{
    let mut buffer = FastBuffer::new();
    buffer.print_str(REACT_DEVELOPMENT_HEAD);
    let mut i: usize = 0;
    while i < REACT_DEVELOPMENT_BLOCKS
        invariant
            i <= REACT_DEVELOPMENT_BLOCKS,
            buffer.wf(),
            buffer@ == REACT_DEVELOPMENT_HEAD.spec_bytes() + react_development_js_blocks(i as nat),
        decreases REACT_DEVELOPMENT_BLOCKS - i,
    {
        let ghost before = buffer@;
        buffer.print_str(REACT_DEVELOPMENT_A);
        print_number(&mut buffer, i);
        buffer.print_str(REACT_DEVELOPMENT_B);
        print_number(&mut buffer, i);
        buffer.print_str(REACT_DEVELOPMENT_C);
        print_number(&mut buffer, i);
        buffer.print_str(REACT_DEVELOPMENT_D);
        assert(buffer@ == before + react_development_js_block(i as nat));
        i += 1;
    }
    buffer.into_string()
}

/// `cal.com.tsx`.
pub fn cal_com_tsx() -> (text: String)
    ensures
        text@ == decode_utf8(cal_com_tsx_text()),
{
    let mut buffer = FastBuffer::new();
    buffer.print_str(CAL_COM_HEAD);
    let mut i: usize = 0;
    while i < CAL_COM_BLOCKS
        invariant
            i <= CAL_COM_BLOCKS,
            buffer.wf(),
            buffer@ == CAL_COM_HEAD.spec_bytes() + cal_com_tsx_blocks(i as nat),
        decreases CAL_COM_BLOCKS - i,
    {
        let ghost before = buffer@;
        buffer.print_str(CAL_COM_A);
        print_number(&mut buffer, i);
        buffer.print_str(CAL_COM_B);
        assert(buffer@ == before + cal_com_tsx_block(i as nat));
        i += 1;
    }
    buffer.into_string()
}

/// `binder.ts`.
pub fn binder_ts() -> (text: String)
    ensures
        text@ == decode_utf8(binder_ts_text()),
{
    let mut buffer = FastBuffer::new();
    buffer.print_str(BINDER_HEAD);
    let mut i: usize = 0;
    while i < BINDER_BLOCKS
        invariant
            i <= BINDER_BLOCKS,
            buffer.wf(),
            buffer@ == BINDER_HEAD.spec_bytes() + binder_ts_blocks(i as nat),
        decreases BINDER_BLOCKS - i,
    {
        let ghost before = buffer@;
        buffer.print_str(BINDER_A);
        print_number(&mut buffer, i);
        buffer.print_str(BINDER_B);
        print_number(&mut buffer, i);
        buffer.print_str(BINDER_C);
        print_number(&mut buffer, i);
        buffer.print_str(BINDER_D);
        assert(buffer@ == before + binder_ts_block(i as nat));
        i += 1;
    }
    buffer.into_string()
}

/// The sample that goes by the name `filename`: `Some` for the four names that there
/// are, `None` for any other.
pub fn offline_fixture(filename: &str) -> (text: Option<String>)
    ensures
        match spec_offline_fixture(filename@) {
            Some(bytes) => text is Some && text->0@ == decode_utf8(bytes),
            None => text is None,
        },
{
    if str_equal(filename, "RadixUIAdoptionSection.jsx") {
        let mut buffer = FastBuffer::new();
        buffer.print_str(RADIX_UI_ADOPTION_SECTION);
        Some(buffer.into_string())
    } else if str_equal(filename, "react.development.js") {
        Some(react_development_js())
    } else if str_equal(filename, "cal.com.tsx") {
        Some(cal_com_tsx())
    } else if str_equal(filename, "binder.ts") {
        Some(binder_ts())
    } else {
        None
    }
}

} // verus!

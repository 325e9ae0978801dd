# owner_fee_ledger

The fee ledger of a residential estate: monthly property bills computed from
meter readings, owner data and a price table; the owner-fee stream, in which
every line moves the balance of a room; records that batch the lines; and the
accounts and approvals around them.

`src/` is verified with Verus. Money is an exact decimal (`Decimal`, an `i128`
mantissa with a `u32` scale) whose every operation states its exact result.
The contracts speak of the mathematical values (`Dec`) and of sequences of
lines, bills and prices.

- `decimal`, `text`, `grouping`: exact decimals, string order and notation,
  grouping by key.
- `owner_fee`, `fee_service`: line kinds and how they move the balance,
  records, stream numbers, booking a management fee against stored money,
  recovering the balance after every line.
- `property_fee`, `property_fee_service`, `room_info`, `owner_info`,
  `price_basic`: bills and their totals, changes to a bill, the monthly run,
  meter readings, management, parking, lift, electricity and water fees, the
  price table.
- `sheet_layout`: which cell of the spreadsheet holds which label, fee or
  formula.
- `user`, `password`, `approve`, `attachment`, `tool_table`: accounts,
  password encoding, approvals, uploads, order numbers.

`tests/` runs the library on concrete values. `app/` holds the parts that
talk to the outside world: conversions to and from the database decimals,
JSON shapes, the spreadsheet writer, picture recognition, the late-payment
rate (a floating-point factor), and the flows that alternate storage access
with the library's decisions, written against storage traits.

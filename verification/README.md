# expense_tracker

A Telegram bot that records expenses written in plain Indonesian or English
("beli kopi 25rb", "taxi a fiver") and reports totals per day, week and month.

- `src/` is the library, verified with Verus: the texts the bot sends, how a message
  becomes an expense (slang, amount, multiplier word, description), who may see the
  dashboard, change access or get reports, and where report periods start.
- `app/` is the program around it: the Telegram dispatcher, the PostgreSQL repository
  and schema, and the ONNX language model whose f32 scores pick intent, language and
  category.
- `tests/` runs the library on concrete messages and commands.

# autoguard

A moderation bot for a Revolt-style chat server. The verified library (`src/`)
holds the bot's decisions; the program in `app/` connects it to the chat client
and to MongoDB.

- `text`: splitting a message into words, the mention clean-up, ASCII lower case.
- `decimal`: unsigned integers in decimal.
- `doc`, `embed`: help texts, embed colours and outgoing messages.
- `db`: channel aliases (merging channel sets) and warnings.
- `events::on_message`: the command handler as a step function from a stage and
  an event to the next stage and an action (ban, kick, warn, ...).
- `on_message`: the earlier handler (spam guard, debugging, tickets, mentions).
- `mention`: batching a mass mention into messages of at most 66 mentions.
- `ticket`, `ticket_flow`: filing ticket channels into categories, archiving them,
  and the course of the `ticket` command.
- `gateway`: start-up choices and the answer to a failed request.

The program in `app/` performs each action the handler asks for and reports the
outcome back as the next event.

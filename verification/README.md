# wechatbot

A client for WeChat bots, in two parts.

- `src/` is the library: every decision that the client takes, written in Verus. It does no
  input or output. A login and the message loop are state machines that take events and yield
  actions; sending, uploading and downloading are planned as values. The contracts say
  exactly what each call yields, but for what rests on chance, on the clock or on the machine:
  the file key of an upload, the present time, the home directory and the platform. The `law_*`
  proof functions state what holds across calls, for example that the chunks of a split text
  rejoin to the text, or that a login requests at most three QR codes whatever the service
  answers.
- `app/` performs the actions: it talks to the service through the `Service` trait, reads and
  writes the credentials file, waits, logs and calls the handlers.

`tests/` runs the library on concrete values.
